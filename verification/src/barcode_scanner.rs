//! Barcode scanning on mobile builds: the request and result records of
//! the scanner plugin.
//!
//! The scan itself is one plain transport invocation made by the host; the
//! record it takes is built here. On the wire the options record follows
//! the wire-case convention (its camera direction field travels as
//! `cameraDirection`).

use vstd::prelude::*;
use vstd::string::StringExecFns;
use crate::schema::{def_wf, is_outcome_type, InterfaceDef, Method, TypeExpr};

verus! {

/// The barcode formats the scanner understands.
#[allow(non_camel_case_types)]
#[derive(Debug, Clone, Copy, PartialEq, Eq, Structural)]
pub enum Format {
    QRCode,
    UPC_A,
    UPC_E,
    EAN8,
    EAN13,
    Code39,
    Code93,
    Code128,
    Codabar,
    ITF,
    Aztec,
    DataMatrix,
    PDF417,
}

/// Which camera the scan uses.
#[derive(Debug, Clone, Copy, PartialEq, Eq, Structural)]
pub enum CameraDirection {
    Back,
    Front,
}

/// The options record handed to the scanner plugin.
#[derive(Debug, PartialEq, Eq)]
pub struct ScanOptions {
    pub camera_direction: CameraDirection,
    pub formats: Vec<Format>,
    pub windowed: bool,
}

/// What a scan hands back: the decoded content, the format that matched,
/// and the bounds as the platform reports them.
#[derive(Debug, PartialEq, Eq)]
pub struct Scanned {
    pub content: String,
    pub format: Format,
    pub bounds: String,
}

/// Builds the request of one scan: the chosen camera, exactly the one
/// requested format, and the windowing flag.
pub fn scan_options(format: Format, windowed: bool, camera_direction: CameraDirection) -> (r:
    ScanOptions)
    ensures
        r.camera_direction == camera_direction,
        r.windowed == windowed,
        r.formats@ == seq![format],
{
    ScanOptions { camera_direction, formats: vec![format], windowed }
}

/// The scanner plugin's contract as schema data: one operation following
/// the same stub pattern as the core interface, addressed under the
/// plugin's namespace by the `plugin:barcode-scanner|` command prefix. Its
/// return is the scan record, not an Outcome shape, so its stub takes the
/// plain transport path.
pub fn scan_interface() -> (r: InterfaceDef)
    ensures
        r.methods@.len() == 1,
        r.methods@[0].name@ == "scan"@,
        r.methods@[0].params@.len() == 3,
        crate::schema::param_name(r.methods@[0].params@[0]) == "camera_direction"@,
        crate::schema::param_name(r.methods@[0].params@[1]) == "formats"@,
        crate::schema::param_name(r.methods@[0].params@[2]) == "windowed"@,
        !is_outcome_type(r.methods@[0].ret),
        def_wf(r),
{
    let mut params: Vec<crate::schema::Param> = Vec::new();
    params.push(crate::api::param("camera_direction", crate::api::named("CameraDirection")));
    let mut format_args: Vec<TypeExpr> = Vec::new();
    format_args.push(crate::api::named("Format"));
    let mut vec_segments: Vec<String> = Vec::new();
    vec_segments.push(String::from_str("Vec"));
    params.push(
        crate::schema::Param {
            binding: crate::schema::Binding::Name(String::from_str("formats")),
            ty: TypeExpr::Named { segments: vec_segments, args: format_args },
        },
    );
    params.push(crate::api::param("windowed", crate::api::named("bool")));
    let mut methods: Vec<Method> = Vec::new();
    methods.push(
        Method {
            name: String::from_str("scan"),
            params,
            ret: crate::api::named("Scanned"),
        },
    );
    proof {
        reveal_strlit("camera_direction");
        reveal_strlit("formats");
        reveal_strlit("windowed");
    }
    InterfaceDef { name: String::from_str("BarcodeScanner"), methods }
}

} // verus!
