use rend3::compute::{compute_pass_label, pipeline_label, pipeline_layout_label};

#[test]
fn compute_labels() {
    assert_eq!(pipeline_layout_label("cull"), "cull pll");
    assert_eq!(pipeline_label("cull"), "cull pipeline");
    assert_eq!(compute_pass_label("cull"), "cull cpass");
    assert_eq!(pipeline_label(""), " pipeline");
}
