//! The coverage payload: what is sent to the web API.

use vstd::prelude::*;
use crate::git::infos::{GitInfos, GitInfosView};

verus! {

/// The coverage of one source file.
#[derive(Debug, Clone, PartialEq, Eq)]
pub struct SourceFile {
    /// The path of the file.
    pub name: String,
    pub source_digest: String,
    /// For each line how often it ran, or nothing for a line that cannot run.
    pub coverage: Vec<Option<usize>>,
    pub branches: Vec<usize>,
    /// The text of the file, where the payload carries it.
    pub source: Option<String>,
}

/// A [`SourceFile`] with its texts as sequences of characters.
pub struct SourceFileView {
    pub name: Seq<char>,
    pub source_digest: Seq<char>,
    pub coverage: Seq<Option<usize>>,
    pub branches: Seq<usize>,
    pub source: Option<Seq<char>>,
}

impl DeepView for SourceFile {
    type V = SourceFileView;

    open spec fn deep_view(&self) -> SourceFileView {
        SourceFileView {
            name: self.name@,
            source_digest: self.source_digest@,
            coverage: self.coverage@,
            branches: self.branches@,
            source: self.source.deep_view(),
        }
    }
}

/// The payload.
#[derive(Debug, Clone, PartialEq, Eq)]
pub struct Coverage {
    pub repo_token: String,
    pub service_name: String,
    pub service_number: String,
    pub service_job_id: String,
    pub service_pull_request: String,
    pub flag_name: Option<String>,
    pub git: Option<GitInfos>,
    pub run_at: String,
    pub source_files: Vec<SourceFile>,
}

/// A [`Coverage`] with its texts as sequences of characters.
pub struct CoverageView {
    pub repo_token: Seq<char>,
    pub service_name: Seq<char>,
    pub service_number: Seq<char>,
    pub service_job_id: Seq<char>,
    pub service_pull_request: Seq<char>,
    pub flag_name: Option<Seq<char>>,
    pub git: Option<GitInfosView>,
    pub run_at: Seq<char>,
    pub source_files: Seq<SourceFileView>,
}

impl View for Coverage {
    type V = CoverageView;

    open spec fn view(&self) -> CoverageView {
        CoverageView {
            repo_token: self.repo_token@,
            service_name: self.service_name@,
            service_number: self.service_number@,
            service_job_id: self.service_job_id@,
            service_pull_request: self.service_pull_request@,
            flag_name: self.flag_name.deep_view(),
            git: match self.git {
                Some(infos) => Some(infos@),
                None => None,
            },
            run_at: self.run_at@,
            source_files: self.source_files.deep_view(),
        }
    }
}

/// A payload that holds nothing.
pub open spec fn empty_payload() -> CoverageView {
    CoverageView {
        repo_token: Seq::empty(),
        service_name: Seq::empty(),
        service_number: Seq::empty(),
        service_job_id: Seq::empty(),
        service_pull_request: Seq::empty(),
        flag_name: None,
        git: None,
        run_at: Seq::empty(),
        source_files: Seq::empty(),
    }
}

impl Coverage {
    /// A payload that holds nothing.
    pub fn new() -> (coverage: Coverage)
        ensures
            coverage@ == empty_payload(),
    {
        let coverage = Coverage {
            repo_token: String::new(),
            service_name: String::new(),
            service_number: String::new(),
            service_job_id: String::new(),
            service_pull_request: String::new(),
            flag_name: None,
            git: None,
            run_at: String::new(),
            source_files: Vec::new(),
        };
        assert(coverage.source_files.deep_view() =~= Seq::<SourceFileView>::empty());
        coverage
    }
}

} // verus!
