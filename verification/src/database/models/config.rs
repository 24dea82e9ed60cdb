//! Stored configuration settings.

use vstd::prelude::*;

verus! {

/// One key/value configuration setting and when it was last written.
#[derive(Debug, Clone)]
pub struct ConfigSetting {
    pub key: String,
    pub value: String,
    pub updated_at: i64,
}

} // verus!
