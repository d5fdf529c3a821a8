//! What is reported of the repository: the head commit, the branch and the
//! remotes, and how a lookup and the configuration come together in them.

pub mod fetcher;
pub mod head;
pub mod infos;
pub mod remote;

pub use crate::git::fetcher::{GitFetcher, LogValueKind, Strategy};
pub use crate::git::head::GitHead;
pub use crate::git::infos::GitInfos;
pub use crate::git::remote::GitRemote;
