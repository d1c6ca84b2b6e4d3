pub mod depth_limited_search;
pub mod iterative_deepening_dfs;
pub mod prunable;
pub mod searchable;
pub mod tree;
