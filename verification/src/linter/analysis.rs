//! Analyses of condition expressions shared by cops.

pub mod const_fold;
