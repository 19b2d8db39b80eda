use gpu_pipeline::buffer::{ascending_words, copy_words, Buffer, BufferUsage};
use gpu_pipeline::compute::{scale, workgroup_count, SCALE_FACTOR, WORKGROUP_SIZE};
use gpu_pipeline::device::{select_queue_family, Capability, QueueFlags};
use gpu_pipeline::matrix::{Matrix4x4, ONE_BITS};
use gpu_pipeline::pipeline::{run_copy_pipeline, run_dispatch_pipeline};
use gpu_pipeline::session::Session;

fn graphics_only() -> QueueFlags {
    QueueFlags { graphics: true, compute: false, transfer: false }
}

fn compute_only() -> QueueFlags {
    QueueFlags { graphics: false, compute: true, transfer: false }
}

fn transfer_only() -> QueueFlags {
    QueueFlags { graphics: false, compute: false, transfer: true }
}

#[test]
fn identity_matrix_words() {
    let m = Matrix4x4::identity();
    assert_eq!(m.words.len(), 16);
    for r in 0..4 {
        for c in 0..4 {
            let expected = if r == c { ONE_BITS } else { 0 };
            assert_eq!(m.words[4 * r + c], expected);
        }
    }
    assert_eq!(f32::from_bits(m.words[0]), 1.0f32);
    assert_eq!(f32::from_bits(m.words[1]), 0.0f32);
}

#[test]
fn default_matrix_is_zero() {
    let m = Matrix4x4::default();
    assert_eq!(m.words.len(), 16);
    for k in 0..16 {
        assert_eq!(m.words[k], 0);
    }
}

#[test]
fn queue_family_first_match() {
    let families = vec![compute_only(), graphics_only(), graphics_only()];
    assert_eq!(select_queue_family(&families, Capability::Graphics), Some(1));
    assert_eq!(select_queue_family(&families, Capability::Compute), Some(0));
}

#[test]
fn queue_family_none_when_unsupported() {
    let empty: Vec<QueueFlags> = Vec::new();
    assert_eq!(select_queue_family(&empty, Capability::Graphics), None);
    let families = vec![transfer_only(), compute_only()];
    assert_eq!(select_queue_family(&families, Capability::Graphics), None);
    assert_eq!(select_queue_family(&families, Capability::Transfer), Some(0));
}

#[test]
fn buffer_constructors() {
    let b = Buffer::from_data(BufferUsage::transfer_src(), vec![7, 8, 9]);
    assert!(b.usage.transfer_src);
    assert!(!b.usage.transfer_dst);
    assert_eq!(b.words, vec![7, 8, 9]);
    let z = Buffer::zeroed(BufferUsage::transfer_dst(), 5);
    assert!(z.usage.transfer_dst);
    assert_eq!(z.words, vec![0, 0, 0, 0, 0]);
}

#[test]
fn ascending_words_contents() {
    let v = ascending_words(0);
    assert!(v.is_empty());
    let v = ascending_words(5);
    assert_eq!(v, vec![0, 1, 2, 3, 4]);
}

#[test]
fn copy_words_is_exact() {
    let v = vec![3, 1, 4, 1, 5];
    assert_eq!(copy_words(&v), v);
}

#[test]
fn scale_exact_values() {
    assert_eq!(SCALE_FACTOR, 12);
    assert_eq!(scale(0), 0);
    assert_eq!(scale(3), 36);
    assert_eq!(scale(65535), 786420);
}

#[test]
fn scale_wraps_like_device_arithmetic() {
    // 12 * (2^32 - 1) mod 2^32 == 2^32 - 12
    assert_eq!(scale(u32::MAX), 4294967284);
}

#[test]
fn workgroup_count_edges() {
    assert_eq!(WORKGROUP_SIZE, 64);
    assert_eq!(workgroup_count(0), 0);
    assert_eq!(workgroup_count(1), 1);
    assert_eq!(workgroup_count(64), 1);
    assert_eq!(workgroup_count(65), 2);
    assert_eq!(workgroup_count(65536), 1024);
}

#[test]
fn copy_pipeline_copies_matrix() {
    let families = vec![compute_only(), graphics_only()];
    let data = Matrix4x4::identity().words;
    let (src, dst) = run_copy_pipeline(&families, Capability::Graphics, data.clone())
        .expect("a graphics family is present");
    assert_eq!(src, data);
    assert_eq!(dst, data);
}

#[test]
fn copy_pipeline_none_without_queue() {
    let families = vec![compute_only()];
    let r = run_copy_pipeline(&families, Capability::Graphics, vec![1, 2, 3]);
    assert!(r.is_none());
}

#[test]
fn dispatch_pipeline_scales_each_element() {
    let families = vec![compute_only()];
    let input = vec![0, 1, 2, 5, 100, 4096];
    let out = run_dispatch_pipeline(&families, Capability::Compute, input)
        .expect("a compute family is present");
    assert_eq!(out, vec![0, 12, 24, 60, 1200, 49152]);
}

#[test]
fn dispatch_pipeline_none_without_queue() {
    let families = vec![graphics_only()];
    let r = run_dispatch_pipeline(&families, Capability::Compute, vec![1]);
    assert!(r.is_none());
}

#[test]
fn dispatch_pipeline_empty_input() {
    let families = vec![compute_only()];
    let out = run_dispatch_pipeline(&families, Capability::Compute, Vec::new())
        .expect("a compute family is present");
    assert!(out.is_empty());
}

#[test]
fn end_to_end_dispatch_over_full_range() {
    let families = vec![graphics_only(), compute_only()];
    let input = ascending_words(65536);
    let out = run_dispatch_pipeline(&families, Capability::Compute, input)
        .expect("a compute family is present");
    assert_eq!(out.len(), 65536);
    for n in 0..65536u32 {
        assert_eq!(out[n as usize], 12 * n);
    }
}

#[test]
fn session_runs_the_linear_order() {
    let families = vec![graphics_only()];
    let mut s = Session::new();
    let picked = s.init_device(&families, Capability::Graphics);
    assert_eq!(picked, Some(0));
    let src = s.allocate_from_data(BufferUsage::transfer_src(), vec![10, 20, 30]);
    let dst = s.allocate_zeroed(BufferUsage::transfer_dst(), 3);
    assert_eq!(src, 0);
    assert_eq!(dst, 1);
    s.record_copy(src, dst);
    s.submit();
    s.complete();
    assert_eq!(s.read_buffer(src), &vec![10, 20, 30]);
    assert_eq!(s.read_buffer(dst), &vec![10, 20, 30]);
}

#[test]
fn session_dispatch_writes_only_the_output() {
    let families = vec![compute_only()];
    let mut s = Session::new();
    s.init_device(&families, Capability::Compute).expect("a compute family is present");
    let input = s.allocate_from_data(BufferUsage::storage(), vec![1, 2, 3]);
    let output = s.allocate_zeroed(BufferUsage::storage(), 3);
    s.record_dispatch(input, output);
    s.submit();
    s.complete();
    assert_eq!(s.read_buffer(input), &vec![1, 2, 3]);
    assert_eq!(s.read_buffer(output), &vec![12, 24, 36]);
}
