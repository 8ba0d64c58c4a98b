//! Commonly used constants.

use vstd::prelude::*;

verus! {

pub const INIT: &'static str = "init";

pub const CORE_BLOB_PARAM_BYTES: &'static str = "bytes";

pub const CORE_BLOB_FIELD_PROGRAM_BINARY: &'static str = "p";

pub const CORE_BLOB_FIELD_PROGRAM_DESCRIPTION: &'static str = "d";

pub const CORE_BLOB_FIELD_VM_TYPE: &'static str = "v";

pub const CORE_EVENTLOG_PARAM_NUM_RECORDS: &'static str = "numRecords";

pub const CORE_EVENTLOG_PARAM_RECORDS: &'static str = "records";

pub const CORE_ROOT_PARAM_CHAIN_ADDRESS: &'static str = "$$address$$";

pub const CORE_ROOT_PARAM_CHAIN_COLOR: &'static str = "$$color$$";

pub const CORE_ROOT_PARAM_CHAIN_ID: &'static str = "$$chainid$$";

pub const CORE_ROOT_PARAM_DATA: &'static str = "$$data$$";

pub const CORE_ROOT_PARAM_FEE_COLOR: &'static str = "$$feecolor$$";

pub const CORE_ROOT_VAR_CHAIN_ID: &'static str = "c";

pub const CORE_ROOT_VAR_CHAIN_OWNER_ID: &'static str = "o";

pub const CORE_ROOT_VAR_FEE_COLOR: &'static str = "f";

pub const CORE_ROOT_VAR_DEFAULT_OWNER_FEE: &'static str = "do";

pub const CORE_ROOT_VAR_DEFAULT_VALIDATOR_FEE: &'static str = "dv";

pub const CORE_ROOT_VAR_CONTRACT_REGISTRY: &'static str = "r";

pub const CORE_ROOT_VAR_DESCRIPTION: &'static str = "d";

} // verus!
