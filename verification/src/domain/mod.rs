pub mod branch_manager;
pub mod git_repository;

pub use branch_manager::{
    BranchCreationResult, BranchDeletionResult, BranchManager, BranchRenameResult,
    BranchSwitchResult, CleanBranchesRequest, CleanBranchesResult, CreateBranchRequest,
    DeleteBranchesRequest, RecentBranchesRequest, RecentBranchesResult, RenameBranchRequest,
    SwitchBranchRequest,
};
pub use git_repository::{GitRepository, HealthLevel, HealthStatus, RepositoryInfo};
