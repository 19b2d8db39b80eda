//! The two pipeline variants run end to end on the host model: the linear
//! sequence of device initialisation, buffer allocation, command recording,
//! submission, fence wait, and read-back.

use vstd::prelude::*;

use crate::buffer::{copy_words, BufferUsage};
use crate::compute::dispatch_output;
use crate::device::{some_family_supports, Capability, QueueFlags};
use crate::session::Session;

verus! {

/// The copy variant: allocate a source buffer holding `data` and a zeroed
/// destination of identical layout, record the one copy command, submit it,
/// wait on the fence, and read both buffers back as (source, destination).
/// After completion the destination equals the source word for word; `None`
/// exactly when no enumerated queue family supports `cap`.
pub fn run_copy_pipeline(families: &Vec<QueueFlags>, cap: Capability, data: Vec<u32>) -> (r:
    Option<(Vec<u32>, Vec<u32>)>)
    ensures
        (match r {
            Some(out) => {
                &&& some_family_supports(families@, cap)
                &&& out.0@ == data@
                &&& out.1@ == data@
            },
            None => !some_family_supports(families@, cap),
        }),
{
    let n = data.len();
    let mut s = Session::new();
    let picked = s.init_device(families, cap);
    if picked.is_none() {
        return None;
    }
    let src = s.allocate_from_data(BufferUsage::transfer_src(), data);
    let dst = s.allocate_zeroed(BufferUsage::transfer_dst(), n);
    s.record_copy(src, dst);
    s.submit();
    s.complete();
    let src_words = copy_words(s.read_buffer(src));
    let dst_words = copy_words(s.read_buffer(dst));
    Some((src_words, dst_words))
}

/// The compute variant: allocate a storage buffer holding `input` and a
/// zeroed storage buffer of identical layout, record the one dispatch
/// command, submit it, wait on the fence, and read the output back. After
/// completion every output word is the matching input word scaled; `None`
/// exactly when no enumerated queue family supports `cap`.
pub fn run_dispatch_pipeline(families: &Vec<QueueFlags>, cap: Capability, input: Vec<u32>) -> (r:
    Option<Vec<u32>>)
    ensures
        (match r {
            Some(out) => {
                &&& some_family_supports(families@, cap)
                &&& out@ == dispatch_output(input@)
            },
            None => !some_family_supports(families@, cap),
        }),
{
    let n = input.len();
    let mut s = Session::new();
    let picked = s.init_device(families, cap);
    if picked.is_none() {
        return None;
    }
    let src = s.allocate_from_data(BufferUsage::storage(), input);
    let dst = s.allocate_zeroed(BufferUsage::storage(), n);
    s.record_dispatch(src, dst);
    s.submit();
    s.complete();
    let out_words = copy_words(s.read_buffer(dst));
    Some(out_words)
}

} // verus!
