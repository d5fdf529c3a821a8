//! Fits a payload for sending: the service, the repository, the token, the
//! values of the build, and the paths of the source files.

use vstd::prelude::*;
use crate::canonical::lemma_canonical_settles;
use crate::config::{or, replace, Config, ConfigView};
use crate::coverage::{Coverage, CoverageView, SourceFile, SourceFileView};
use crate::error::{viewed, Error, ErrorView};
use crate::git::fetcher::{copy_text, GitFetcher};
use crate::git::head::{complete, incomplete_text, or_text, replace_text};
use crate::git::infos::{blank, lemma_update_settles, updated, GitInfos, GitInfosView};
use crate::helpers::{
    absolute, adjoin, adjoined, canonical, is_absolute, lemma_canonical_stays_relative,
    path_to_string, starts_with, under,
};

verus! {

/// Does the fitting and, with the caller's help, the sending.
pub struct CoverallsManager;

/// Whether `name` lies at or below one of `dirs`.
pub open spec fn under_any(name: Seq<char>, dirs: Seq<Seq<char>>) -> bool {
    exists|i: int| 0 <= i < dirs.len() && under(name, #[trigger] dirs[i])
}

/// Whether a source file of this path leaves the payload: it is absolute and
/// such paths are pruned, or it lies at or below a pruned directory.
pub open spec fn pruned(c: ConfigView, name: Seq<char>) -> bool {
    (c.param_prune_absolutes && absolute(name)) || under_any(name, c.param_prune_dirs)
}

/// The path under which a source file stays: the prefix before it, if one is
/// configured, and the whole in canonical form.
pub open spec fn renamed(c: ConfigView, name: Seq<char>) -> Seq<char> {
    match c.param_src_prefix {
        Some(prefix) => canonical(adjoined(prefix, name)),
        None => canonical(name),
    }
}

/// The source files that stay, in their order, each under its new path.
pub open spec fn normalized(c: ConfigView, files: Seq<SourceFileView>) -> Seq<SourceFileView>
    decreases files.len(),
{
    if files.len() == 0 {
        Seq::empty()
    } else if pruned(c, files.last().name) {
        normalized(c, files.drop_last())
    } else {
        normalized(c, files.drop_last()).push(
            SourceFileView { name: renamed(c, files.last().name), ..files.last() },
        )
    }
}

/// What the payload reports of the repository once it is brought up to date:
/// the record it carried, or else a blank one, after the lookup and the
/// configuration.
pub open spec fn repository(cov: CoverageView, c: ConfigView, f: GitFetcher) -> GitInfosView {
    updated(
        match cov.git {
            Some(infos) => infos,
            None => blank(),
        },
        f,
        c,
    )
}

/// The repo token after the configuration has had its say.
pub open spec fn token(cov: CoverageView, c: ConfigView) -> Seq<char> {
    or_text(c.repo_token, cov.repo_token)
}

/// Why a payload cannot be fitted: the head commit lacks a value, or else
/// there is no repo token.
pub open spec fn refusal(cov: CoverageView, c: ConfigView, f: GitFetcher) -> Option<ErrorView> {
    if !complete(repository(cov, c, f).head) {
        Some(ErrorView::Vcs(incomplete_text(f.strategy)))
    } else if token(cov, c).len() == 0 {
        Some(ErrorView::MissingRepoToken)
    } else {
        None
    }
}

/// The payload as it is fitted.
pub open spec fn fitted(cov: CoverageView, c: ConfigView, f: GitFetcher) -> CoverageView {
    CoverageView {
        service_name: c.service.name_text(),
        git: Some(repository(cov, c, f)),
        repo_token: token(cov, c),
        flag_name: or(c.flag_name, cov.flag_name),
        service_number: or_text(c.service_build_number, cov.service_number),
        service_pull_request: or_text(c.service_pull_request, cov.service_pull_request),
        service_job_id: or_text(c.service_job_id, cov.service_job_id),
        source_files: normalized(c, cov.source_files),
        ..cov
    }
}

/// The payload as a refusal leaves it: with the name of the service; with the
/// record of the repository brought up to date, unless it carried none and
/// the head commit is what is lacking; and with the token, if that is what is
/// lacking. The rest is untouched.
pub open spec fn refused(cov: CoverageView, c: ConfigView, f: GitFetcher) -> CoverageView {
    if !complete(repository(cov, c, f).head) {
        CoverageView {
            service_name: c.service.name_text(),
            git: match cov.git {
                Some(_) => Some(repository(cov, c, f)),
                None => None,
            },
            ..cov
        }
    } else {
        CoverageView {
            service_name: c.service.name_text(),
            git: Some(repository(cov, c, f)),
            repo_token: token(cov, c),
            ..cov
        }
    }
}

/// What is to be posted: a form of one field that holds the payload as a
/// file.
#[derive(Debug, Clone, PartialEq, Eq)]
pub struct Submission {
    /// Where to post.
    pub url: String,
    /// The name of the form field.
    pub field: String,
    /// The file name given for the field.
    pub file_name: String,
    /// The media type given for the field.
    pub media_type: String,
    /// The payload as JSON text.
    pub body: String,
}

/// The verdict on the answer to a submission: accepted on status 200; else a
/// failure that carries the status as it prints and the body of the answer,
/// or the status once more where the body cannot be read.
pub open spec fn verdict(code: u16, status: Seq<char>, body: Option<Seq<char>>) -> Result<
    (),
    ErrorView,
> {
    if code == 200 {
        Ok(())
    } else {
        Err(
            ErrorView::Api(
                "API status "@ + status + ": "@ + (match body {
                    Some(text) => text,
                    None => status,
                }),
            ),
        )
    }
}

/// Whether a source file of this path leaves the payload.
pub fn is_pruned(config: &Config, name: &str) -> (res: bool)
    ensures
        res == pruned(config@, name@),
{
    if config.param_prune_absolutes && is_absolute(name) {
        return true;
    }
    let mut i: usize = 0;
    while i < config.param_prune_dirs.len()
        invariant
            i <= config.param_prune_dirs.len(),
            forall|k: int| 0 <= k < i ==> !under(name@, #[trigger] config@.param_prune_dirs[k]),
        decreases config.param_prune_dirs.len() - i,
    {
        assert(config@.param_prune_dirs[i as int] == config.param_prune_dirs[i as int]@);
        if starts_with(name, config.param_prune_dirs[i].as_str()) {
            assert(under_any(name@, config@.param_prune_dirs));
            return true;
        }
        i += 1;
    }
    false
}

/// The path under which a source file stays.
pub fn rename(config: &Config, name: &str) -> (out: String)
    ensures
        out@ == renamed(config@, name@),
{
    match &config.param_src_prefix {
        Some(prefix) => {
            let whole = adjoin(prefix.as_str(), name);
            path_to_string(whole.as_str())
        },
        None => path_to_string(name),
    }
}

/// The source files that stay, in their order, each under its new path.
pub fn normalize(config: &Config, files: Vec<SourceFile>) -> (kept: Vec<SourceFile>)
    ensures
        kept.deep_view() == normalized(config@, files.deep_view()),
{
    let ghost all = files.deep_view();
    let mut kept: Vec<SourceFile> = Vec::new();
    assert(kept.deep_view() =~= Seq::<SourceFileView>::empty());
    assert(all.take(0) =~= Seq::<SourceFileView>::empty());
    for source in it: files
        invariant
            it.seq().len() == all.len(),
            forall|k: int| 0 <= k < all.len() ==> it.seq()[k].deep_view() == all[k],
            kept.deep_view() == normalized(config@, all.take(it.index() as int)),
    {
        let ghost before = kept.deep_view();
        let ghost at = it.index() as int;
        assert(all.take(at + 1).drop_last() =~= all.take(at));
        assert(all.take(at + 1).last() == source.deep_view());
        if !is_pruned(config, source.name.as_str()) {
            let mut source = source;
            source.name = rename(config, source.name.as_str());
            kept.push(source);
            assert(kept.deep_view() =~= before.push(source.deep_view()));
        }
    }
    assert(all.take(all.len() as int) =~= all);
    kept
}

impl CoverallsManager {
    /// A manager. It holds nothing: what it works on is handed to it.
    pub fn new() -> (manager: CoverallsManager) {
        CoverallsManager
    }

    /// What is to be posted for a payload that reads `document` as JSON.
    pub fn send(&self, document: String) -> (form: Submission)
        ensures
            form.url@ == "https://coveralls.io/api/v1/jobs"@,
            form.field@ == "json_file"@,
            form.file_name@ == "json_file"@,
            form.media_type@ == "application/json"@,
            form.body@ == document@,
    {
        Submission {
            url: "https://coveralls.io/api/v1/jobs".to_owned(),
            field: "json_file".to_owned(),
            file_name: "json_file".to_owned(),
            media_type: "application/json".to_owned(),
            body: document,
        }
    }

    /// The verdict on the answer to a submission: see [`verdict`]. `status`
    /// is the status as it prints, number and reason.
    pub fn receive(&self, code: u16, status: &str, body: Option<String>) -> (res: Result<
        (),
        Error,
    >)
        ensures
            viewed(res) == verdict(code, status@, body.deep_view()),
    {
        if code == 200 {
            Ok(())
        } else {
            let mut text = "API status ".to_owned();
            text.append(status);
            text.append(": ");
            match &body {
                Some(answer) => {
                    text.append(answer.as_str());
                },
                None => {
                    text.append(status);
                },
            }
            Err(Error::Api(text))
        }
    }

    /// Fits `coverage` for sending: names the service; brings the record of
    /// the repository up to date from `git_fetcher` and `config`; takes in
    /// the repo token and the values of the build that `config` holds; prunes
    /// and renames the source files. Fails, before anything could be sent,
    /// where the head commit lacks a value or, else, where no repo token is
    /// to be had.
    pub fn apply_config(
        &self,
        config: &Config,
        git_fetcher: &GitFetcher,
        coverage: &mut Coverage,
    ) -> (res: Result<(), Error>)
        ensures
            match refusal(old(coverage)@, config@, *git_fetcher) {
                None => res is Ok && final(coverage)@ == fitted(
                    old(coverage)@,
                    config@,
                    *git_fetcher,
                ),
                Some(e) => res matches Err(x) && x@ == e && final(coverage)@ == refused(
                    old(coverage)@,
                    config@,
                    *git_fetcher,
                ),
            },
    {
        coverage.service_name = config.service.get_name().to_owned();
        let mut known: Option<GitInfos> = None;
        std::mem::swap(&mut known, &mut coverage.git);
        match known {
            Some(mut infos) => {
                let checked = infos.update(git_fetcher, config);
                coverage.git = Some(infos);
                checked?;
            },
            None => {
                let mut infos = GitInfos::new();
                infos.update(git_fetcher, config)?;
                coverage.git = Some(infos);
            },
        }
        replace_text(&mut coverage.repo_token, &config.repo_token);
        if coverage.repo_token.as_str().is_empty() {
            return Err(Error::MissingRepoToken);
        }
        replace(&mut coverage.flag_name, copy_text(&config.flag_name));
        replace_text(&mut coverage.service_number, &config.service_build_number);
        replace_text(&mut coverage.service_pull_request, &config.service_pull_request);
        replace_text(&mut coverage.service_job_id, &config.service_job_id);
        let mut files: Vec<SourceFile> = Vec::new();
        std::mem::swap(&mut files, &mut coverage.source_files);
        coverage.source_files = normalize(config, files);
        Ok(())
    }
}

/// Each source file is dealt with by itself, and the order stays: what is
/// kept of two lists in a row is what is kept of the first, then what is kept
/// of the second.
pub proof fn lemma_normalized_in_order(
    c: ConfigView,
    first: Seq<SourceFileView>,
    second: Seq<SourceFileView>,
)
    ensures
        normalized(c, first + second) == normalized(c, first) + normalized(c, second),
    decreases second.len(),
{
    if second.len() == 0 {
        assert(first + second =~= first);
        assert(normalized(c, first) + normalized(c, second) =~= normalized(c, first));
    } else {
        lemma_normalized_in_order(c, first, second.drop_last());
        assert((first + second).drop_last() =~= first + second.drop_last());
        assert((first + second).last() == second.last());
        if !pruned(c, second.last().name) {
            let file = SourceFileView { name: renamed(c, second.last().name), ..second.last() };
            assert((normalized(c, first) + normalized(c, second.drop_last())).push(file)
                =~= normalized(c, first) + normalized(c, second.drop_last()).push(file));
        }
    }
}

/// No source file stays whose path is absolute, where such paths are pruned,
/// or lies at or below a pruned directory; every other one stays, under its
/// new path and with nothing else changed.
pub proof fn lemma_normalized_one(c: ConfigView, file: SourceFileView)
    ensures
        c.param_prune_absolutes && absolute(file.name) ==> normalized(c, seq![file]).len() == 0,
        forall|i: int|
            0 <= i < c.param_prune_dirs.len() && under(file.name, #[trigger] c.param_prune_dirs[i])
                ==> normalized(c, seq![file]).len() == 0,
        !pruned(c, file.name) ==> normalized(c, seq![file]) == seq![
            SourceFileView { name: renamed(c, file.name), ..file },
        ],
{
    let one = seq![file];
    assert(one.drop_last() =~= Seq::<SourceFileView>::empty());
    assert(one.last() == file);
    assert(normalized(c, one.drop_last()) =~= Seq::<SourceFileView>::empty());
    if !pruned(c, file.name) {
        assert(normalized(c, one) =~= seq![SourceFileView { name: renamed(c, file.name), ..file }]);
    }
}

/// Whether `kept` is the source file `file` under its new path.
pub open spec fn keeps(c: ConfigView, file: SourceFileView, kept: SourceFileView) -> bool {
    !pruned(c, file.name) && kept == (SourceFileView { name: renamed(c, file.name), ..file })
}

/// Whether one of `files` stays as `kept`.
pub open spec fn kept_from(
    c: ConfigView,
    files: Seq<SourceFileView>,
    kept: SourceFileView,
) -> bool {
    exists|i: int| 0 <= i < files.len() && keeps(c, #[trigger] files[i], kept)
}

/// The source files that stay are those whose paths are not pruned, and no
/// others: each that stays was one of them, and each of them stays.
pub proof fn lemma_normalized_is_the_kept(c: ConfigView, files: Seq<SourceFileView>)
    ensures
        forall|k: int|
            0 <= k < normalized(c, files).len() ==> kept_from(
                c,
                files,
                #[trigger] normalized(c, files)[k],
            ),
        forall|i: int|
            0 <= i < files.len() && !pruned(c, (#[trigger] files[i]).name) ==> normalized(
                c,
                files,
            ).contains(SourceFileView { name: renamed(c, files[i].name), ..files[i] }),
    decreases files.len(),
{
    if files.len() > 0 {
        let before = files.drop_last();
        let now = normalized(c, files);
        lemma_normalized_is_the_kept(c, before);
        assert forall|k: int| 0 <= k < now.len() implies kept_from(c, files, #[trigger] now[k]) by {
            if k < normalized(c, before).len() {
                assert(kept_from(c, before, normalized(c, before)[k]));
                let i = choose|i: int|
                    0 <= i < before.len() && keeps(c, #[trigger] before[i], now[k]);
                assert(keeps(c, files[i], now[k]));
            } else {
                assert(keeps(c, files[files.len() - 1], now[k]));
            }
        }
        assert forall|i: int|
            0 <= i < files.len() && !pruned(c, (#[trigger] files[i]).name) implies now.contains(
            SourceFileView { name: renamed(c, files[i].name), ..files[i] },
        ) by {
            let kept = SourceFileView { name: renamed(c, files[i].name), ..files[i] };
            if i < before.len() {
                assert(before[i] == files[i]);
                let k = choose|k: int|
                    0 <= k < normalized(c, before).len() && normalized(c, before)[k] == kept;
                assert(now[k] == kept);
            } else {
                assert(now[now.len() - 1] == kept);
            }
        }
    }
}

/// Where absolute paths are pruned and the prefix, if there is one, does not
/// begin at the root, no source file stays under an absolute path.
pub proof fn lemma_kept_paths_are_relative(c: ConfigView, files: Seq<SourceFileView>)
    requires
        c.param_prune_absolutes,
        c.param_src_prefix matches Some(prefix) ==> !absolute(prefix),
    ensures
        forall|k: int|
            0 <= k < normalized(c, files).len() ==> !absolute(
                (#[trigger] normalized(c, files)[k]).name,
            ),
{
    lemma_normalized_is_the_kept(c, files);
    assert forall|k: int| 0 <= k < normalized(c, files).len() implies !absolute(
        (#[trigger] normalized(c, files)[k]).name,
    ) by {
        let kept = normalized(c, files)[k];
        assert(kept_from(c, files, kept));
        let i = choose|i: int| 0 <= i < files.len() && keeps(c, #[trigger] files[i], kept);
        let name = files[i].name;
        match c.param_src_prefix {
            Some(prefix) => {
                if prefix.len() > 0 {
                    assert(adjoined(prefix, name)[0] == prefix[0]);
                }
                lemma_canonical_stays_relative(adjoined(prefix, name));
            },
            None => {
                lemma_canonical_stays_relative(name);
            },
        }
    }
}

/// Every source file that stays has its path in canonical form: parting the
/// path and writing it again would change nothing.
pub proof fn lemma_kept_paths_are_canonical(c: ConfigView, files: Seq<SourceFileView>)
    ensures
        forall|k: int|
            0 <= k < normalized(c, files).len() ==> canonical(
                (#[trigger] normalized(c, files)[k]).name,
            ) == normalized(c, files)[k].name,
{
    lemma_normalized_is_the_kept(c, files);
    assert forall|k: int| 0 <= k < normalized(c, files).len() implies canonical(
        (#[trigger] normalized(c, files)[k]).name,
    ) == normalized(c, files)[k].name by {
        let kept = normalized(c, files)[k];
        assert(kept_from(c, files, kept));
        let i = choose|i: int| 0 <= i < files.len() && keeps(c, #[trigger] files[i], kept);
        match c.param_src_prefix {
            Some(prefix) => {
                lemma_canonical_settles(adjoined(prefix, files[i].name));
            },
            None => {
                lemma_canonical_settles(files[i].name);
            },
        }
    }
}

/// Fitting a payload that was fitted before, from the same lookup and the
/// same configuration, leaves the record of the repository as it is: it is
/// brought up to date, not added a second time.
pub proof fn lemma_refit_keeps_repository(cov: CoverageView, c: ConfigView, f: GitFetcher)
    ensures
        fitted(fitted(cov, c, f), c, f).git == fitted(cov, c, f).git,
{
    lemma_update_settles(
        match cov.git {
            Some(infos) => infos,
            None => blank(),
        },
        f,
        c,
    );
}

} // verus!
