//! Fixed byte constants of the device protocol: the header that opens the
//! logical LED byte layout, and the opaque feature-report sequences that
//! switch the control channel between its modes.

use vstd::prelude::*;

verus! {

/// Length in bytes of the LED feature-report header.
pub const LED_FEATURE_REPORT_HEAD_LEN: usize = 4;

/// The header bytes that open the logical LED byte layout.
pub open spec fn spec_led_feature_report_head() -> Seq<u8> {
    seq![0xa1u8, 0x01u8, 0x01u8, 0xb4u8]
}

/// The header bytes that open the logical LED byte layout.
pub fn led_feature_report_head() -> (r: Vec<u8>)
    ensures
        r@ == spec_led_feature_report_head(),
{
    let mut r: Vec<u8> = Vec::new();
    r.push(0xa1);
    r.push(0x01);
    r.push(0x01);
    r.push(0xb4);
    proof {
        assert(r@ =~= spec_led_feature_report_head());
    }
    r
}

/// The ordered feature reports that hand the control channel to the
/// externally driven custom mode. Opaque device constants: only their order
/// matters to the handshake.
pub open spec fn spec_feature_reports_custom() -> Seq<Seq<u8>> {
    seq![seq![0x15u8, 0x00u8, 0x01u8], seq![0x05u8, 0x04u8, 0x00u8, 0x04u8]]
}

/// The ordered feature reports that hand the control channel back to the
/// device's native rainbow mode. Opaque device constants.
pub open spec fn spec_feature_reports_rainbow() -> Seq<Seq<u8>> {
    seq![seq![0x15u8, 0x00u8, 0x00u8], seq![0x05u8, 0x04u8, 0x00u8, 0x04u8]]
}

/// The ordered feature reports of the custom-mode handshake.
pub fn feature_reports_custom() -> (r: Vec<Vec<u8>>)
    ensures
        r@.len() == spec_feature_reports_custom().len(),
        forall|i: int| 0 <= i < r@.len() ==> (#[trigger] r@[i])@ == spec_feature_reports_custom()[i],
{
    let mut first: Vec<u8> = Vec::new();
    first.push(0x15);
    first.push(0x00);
    first.push(0x01);
    let mut second: Vec<u8> = Vec::new();
    second.push(0x05);
    second.push(0x04);
    second.push(0x00);
    second.push(0x04);
    let mut r: Vec<Vec<u8>> = Vec::new();
    proof {
        assert(first@ =~= spec_feature_reports_custom()[0]);
        assert(second@ =~= spec_feature_reports_custom()[1]);
    }
    r.push(first);
    r.push(second);
    r
}

/// The ordered feature reports of the rainbow-mode handshake.
pub fn feature_reports_rainbow() -> (r: Vec<Vec<u8>>)
    ensures
        r@.len() == spec_feature_reports_rainbow().len(),
        forall|i: int|
            0 <= i < r@.len() ==> (#[trigger] r@[i])@ == spec_feature_reports_rainbow()[i],
{
    let mut first: Vec<u8> = Vec::new();
    first.push(0x15);
    first.push(0x00);
    first.push(0x00);
    let mut second: Vec<u8> = Vec::new();
    second.push(0x05);
    second.push(0x04);
    second.push(0x00);
    second.push(0x04);
    let mut r: Vec<Vec<u8>> = Vec::new();
    proof {
        assert(first@ =~= spec_feature_reports_rainbow()[0]);
        assert(second@ =~= spec_feature_reports_rainbow()[1]);
    }
    r.push(first);
    r.push(second);
    r
}

} // verus!
