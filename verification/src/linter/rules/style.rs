//! Rules on the style of YARA rules.

pub mod missing_required_meta;
