//! The success half of every response: what was done, as a line of JSON.

use crate::text::{decimal, push_decimal, push_signed_decimal, signed_decimal};
use vstd::prelude::*;
use vstd::string::StringExecFns;

verus! {

/// What a successful operation reports.
#[derive(Clone, Copy, Debug, PartialEq, Eq, Structural)]
pub enum Response {
    /// An image was decoded and is now held; with its dimensions.
    Loaded { width: u32, height: u32 },
    /// The image was resampled; with the dimensions that were asked for.
    Resized { width: u32, height: u32 },
    /// The image was cut down to a rectangle; with the rectangle that was asked for.
    Cropped { x: u32, y: u32, width: u32, height: u32 },
    /// The image was turned a quarter clockwise.
    Rotated,
    /// The brightness was changed; with the amount that was asked for.
    Brightened { value: i32 },
    /// The dimensions of the image that is held.
    Dimensions { width: u32, height: u32 },
}

impl Response {
    /// The JSON text of this response.
    pub open spec fn text(self) -> Seq<char> {
        match self {
            Response::Loaded { width, height } => "{\"success\": true, \"width\": "@ + decimal(
                width as nat,
            ) + ", \"height\": "@ + decimal(height as nat) + ", \"format\": \"detected\"}"@,
            Response::Resized { width, height } =>
                "{\"success\": true, \"operation\": \"resize\", \"width\": "@ + decimal(
                    width as nat,
                ) + ", \"height\": "@ + decimal(height as nat) + "}"@,
            Response::Cropped { x, y, width, height } =>
                "{\"success\": true, \"operation\": \"crop\", \"x\": "@ + decimal(x as nat)
                    + ", \"y\": "@ + decimal(y as nat) + ", \"width\": "@ + decimal(width as nat)
                    + ", \"height\": "@ + decimal(height as nat) + "}"@,
            Response::Rotated => "{\"success\": true, \"operation\": \"rotate90\"}"@,
            Response::Brightened { value } =>
                "{\"success\": true, \"operation\": \"brightness\", \"value\": "@ + signed_decimal(
                    value as int,
                ) + "}"@,
            Response::Dimensions { width, height } => "{\"width\": "@ + decimal(width as nat)
                + ", \"height\": "@ + decimal(height as nat) + "}"@,
        }
    }

    /// Renders this response as JSON.
    pub fn to_json(&self) -> (s: String)
        ensures
            s@ == self.text(),
    {
        match *self {
            Response::Loaded { width, height } => {
                let mut s: String = String::from_str("{\"success\": true, \"width\": ");
                push_decimal(&mut s, width);
                s.append(", \"height\": ");
                push_decimal(&mut s, height);
                s.append(", \"format\": \"detected\"}");
                s
            },
            Response::Resized { width, height } => {
                let mut s: String = String::from_str(
                    "{\"success\": true, \"operation\": \"resize\", \"width\": ",
                );
                push_decimal(&mut s, width);
                s.append(", \"height\": ");
                push_decimal(&mut s, height);
                s.append("}");
                s
            },
            Response::Cropped { x, y, width, height } => {
                let mut s: String = String::from_str(
                    "{\"success\": true, \"operation\": \"crop\", \"x\": ",
                );
                push_decimal(&mut s, x);
                s.append(", \"y\": ");
                push_decimal(&mut s, y);
                s.append(", \"width\": ");
                push_decimal(&mut s, width);
                s.append(", \"height\": ");
                push_decimal(&mut s, height);
                s.append("}");
                s
            },
            Response::Rotated => String::from_str("{\"success\": true, \"operation\": \"rotate90\"}"),
            Response::Brightened { value } => {
                let mut s: String = String::from_str(
                    "{\"success\": true, \"operation\": \"brightness\", \"value\": ",
                );
                push_signed_decimal(&mut s, value);
                s.append("}");
                s
            },
            Response::Dimensions { width, height } => {
                let mut s: String = String::from_str("{\"width\": ");
                push_decimal(&mut s, width);
                s.append(", \"height\": ");
                push_decimal(&mut s, height);
                s.append("}");
                s
            },
        }
    }
}

/// The text of `true` or `false`.
pub open spec fn bool_text(b: bool) -> Seq<char> {
    if b {
        "true"@
    } else {
        "false"@
    }
}

/// The capability report of a session: versions, whether an image is held, and
/// the formats and operations on offer.
pub open spec fn info_text(rust_version: Seq<char>, image_loaded: bool) -> Seq<char> {
    "{\n                \"wasm_version\": \"0.1.0\",\n                \"rust_version\": \""@
        + rust_version + "\",\n                \"image_loaded\": "@ + bool_text(image_loaded)
        + ",\n                \"supported_formats\": [\"png\", \"jpeg\", \"webp\"],\n                \"supported_operations\": [\"resize\", \"crop\", \"rotate\", \"brightness\", \"contrast\", \"gamma\"],\n                \"memory_usage\": \"wasm_heap\"\n            }"@
}

/// Renders the capability report of a session.
pub fn render_info(rust_version: &str, image_loaded: bool) -> (s: String)
    ensures
        s@ == info_text(rust_version@, image_loaded),
{
    let mut s: String = String::from_str(
        "{\n                \"wasm_version\": \"0.1.0\",\n                \"rust_version\": \"",
    );
    s.append(rust_version);
    s.append("\",\n                \"image_loaded\": ");
    if image_loaded {
        s.append("true");
    } else {
        s.append("false");
    }
    s.append(
        ",\n                \"supported_formats\": [\"png\", \"jpeg\", \"webp\"],\n                \"supported_operations\": [\"resize\", \"crop\", \"rotate\", \"brightness\", \"contrast\", \"gamma\"],\n                \"memory_usage\": \"wasm_heap\"\n            }",
    );
    s
}

/// The build report of the module: its name, versions and features.
pub open spec fn wasm_info_text(version: Seq<char>) -> Seq<char> {
    "{\n            \"name\": \"imageops\",\n            \"version\": \"0.1.0\",\n            \"wasm_bindgen_version\": \""@
        + version
        + "\",\n            \"build_timestamp\": \"compile_time\",\n            \"features\": [\"webp\", \"jpeg\", \"png\", \"resize\", \"crop\", \"rotate\", \"brightness\", \"contrast\"],\n            \"memory_allocator\": \"wee_alloc\",\n            \"optimization\": \"size\"\n        }"@
}

/// The build report of the module, which is the same for every session.
/// `version` is the version of the package that was built.
pub fn get_wasm_info(version: &str) -> (s: String)
    ensures
        s@ == wasm_info_text(version@),
{
    let mut s: String = String::from_str(
        "{\n            \"name\": \"imageops\",\n            \"version\": \"0.1.0\",\n            \"wasm_bindgen_version\": \"",
    );
    s.append(version);
    s.append(
        "\",\n            \"build_timestamp\": \"compile_time\",\n            \"features\": [\"webp\", \"jpeg\", \"png\", \"resize\", \"crop\", \"rotate\", \"brightness\", \"contrast\"],\n            \"memory_allocator\": \"wee_alloc\",\n            \"optimization\": \"size\"\n        }",
    );
    s
}

} // verus!
