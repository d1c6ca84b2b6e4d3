pub mod algebra;
pub mod operation;
pub mod cube;
pub mod search;
pub mod solve;

pub use algebra::quotient_group::QuotientGroup;
pub use algebra::quotient_group_vec::QuotientGroupVec;
pub use algebra::rotation::Rotation;
pub use algebra::symmetric_group::PermutationError;
pub use algebra::symmetric_group::SymmetricGroup;
pub use cube::Cube;
pub use operation::Face;
pub use operation::Operation;
pub use search::depth_limited_search::depth_limited_search;
pub use search::iterative_deepening_dfs::iterative_deepening_dfs;
pub use search::prunable::Prunable;
pub use search::searchable::Searchable;
pub use search::tree::Tree;
pub use solve::solve;
pub use solve::SearchNode;
