//! Capture planning: the decisions of one capture attempt, taken over plain
//! observations of the platform (display origins, directory contents). The
//! surrounding application enumerates, grabs and writes; this module says
//! which display and which path.

use vstd::prelude::*;
use crate::allocator::{allocate, is_allocation};
use crate::chars::push_char;
use crate::error::CaptureError;
use crate::selector::{select_index, spec_selected, MonitorDescriptor};
use crate::text::spec_sanitize;

verus! {

/// Joins a directory and a file name with the path separator.
pub fn join_path(directory: &str, name: &str) -> (r: String)
    ensures
        r@ == directory@ + seq!['/'] + name@,
{
    let mut r = String::from_str(directory);
    push_char(&mut r, '/');
    r.append(name);
    proof {
        assert(r@ =~= directory@ + seq!['/'] + name@);
    }
    r
}

/// Everything the platform needs to carry one capture out: which enumerated
/// display to grab, and the name and full path of the file to write.
#[derive(Clone, Debug, PartialEq, Eq)]
pub struct CapturePlan {
    pub monitor_index: usize,
    pub file_name: String,
    pub output_path: String,
}

/// Decides one capture attempt. Fails exactly when no display was enumerated;
/// otherwise the plan names the selected display and the first collision-free
/// candidate path inside `directory`, per the selector's and the allocator's
/// contracts.
pub fn plan_capture(
    monitors: &Vec<MonitorDescriptor>,
    existing: &Vec<String>,
    directory: &str,
    identifier: &str,
) -> (r: Result<CapturePlan, CaptureError>)
    requires
        existing@.len() < usize::MAX,
    ensures
        monitors@.len() == 0 <==> r is Err,
        r matches Err(e) ==> e is NoDisplayFound,
        r matches Ok(p) ==> {
            &&& spec_selected(monitors@, p.monitor_index as int)
            &&& exists|n: nat|
                is_allocation(existing.deep_view(), spec_sanitize(identifier@), p.file_name@, n)
            &&& p.output_path@ == directory@ + seq!['/'] + p.file_name@
        },
{
    match select_index(monitors) {
        None => Err(CaptureError::NoDisplayFound),
        Some(idx) => {
            let name = allocate(existing, identifier);
            let path = join_path(directory, name.as_str());
            Ok(CapturePlan { monitor_index: idx, file_name: name, output_path: path })
        },
    }
}

} // verus!
