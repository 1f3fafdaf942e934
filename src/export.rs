use vstd::prelude::*;
use vstd::string::StringExecFns;

use crate::error::Error;
use crate::raster::{rasterize, raster_error, raster_succeeds, RasterImage};

verus! {

/// The export formats.
#[derive(Debug, Clone, Copy, PartialEq, Eq)]
pub enum ImageFormat {
    Svg,
    Png,
}

/// The format a name stands for, if any: exactly `svg` or `png`.
pub open spec fn format_named(name: Seq<char>) -> Option<ImageFormat> {
    if name == "svg"@ {
        Some(ImageFormat::Svg)
    } else if name == "png"@ {
        Some(ImageFormat::Png)
    } else {
        None
    }
}

/// The file extension of a format.
pub open spec fn format_extension(f: ImageFormat) -> Seq<char> {
    match f {
        ImageFormat::Svg => "svg"@,
        ImageFormat::Png => "png"@,
    }
}

/// Raster output at or below this many pixels per side may not scan well.
pub const LOW_RESOLUTION_LIMIT: u32 = 256;

/// The path that std's `Path::with_extension` gives for a path and an
/// extension.
pub uninterp spec fn path_with_extension(path: Seq<char>, ext: Seq<char>) -> Seq<char>;

/// Relies on std's `Path::with_extension`: the extension of the last
/// component is replaced (or added) by `ext`. It panics on an extension that
/// holds a path separator, which neither format's extension does.
#[verifier::external_body]
fn with_extension(path: &str, ext: &str) -> (r: String)
    requires
        ext@ == "svg"@ || ext@ == "png"@,
    ensures
        r@ == path_with_extension(path@, ext@),
{
    std::path::Path::new(path).with_extension(ext).to_string_lossy().into_owned()
}

impl ImageFormat {
    /// Reads a format name; any name but `svg` and `png` is unsupported.
    pub fn parse(name: &str) -> (r: Result<ImageFormat, Error>)
        ensures
            format_named(name@) matches Some(f) ==> r == Ok::<ImageFormat, Error>(f),
            format_named(name@) is None ==> (r matches Err(Error::UnsupportedFormat(n)) && n@ == name@),
    {
        let n = String::from_str(name);
        if n == String::from_str("svg") {
            Ok(ImageFormat::Svg)
        } else if n == String::from_str("png") {
            Ok(ImageFormat::Png)
        } else {
            Err(Error::UnsupportedFormat(n))
        }
    }

    /// The file extension of the format.
    pub fn extension(&self) -> (r: String)
        ensures
            r@ == format_extension(*self),
    {
        match self {
            ImageFormat::Svg => String::from_str("svg"),
            ImageFormat::Png => String::from_str("png"),
        }
    }
}

/// What an export will do, decided before any file is touched.
#[derive(Debug, Clone)]
pub struct ExportPlan {
    pub format: ImageFormat,
    pub size: u32,
    /// Where the artifact goes; `None` sends it to standard output.
    pub destination: Option<String>,
    /// Raster output at `size <= 256`: a warning, never an error.
    pub low_resolution: bool,
}

/// The product of an export: the SVG text as given, or a raster image.
#[derive(Debug, Clone)]
pub enum Artifact {
    Vector(String),
    Raster(RasterImage),
}

/// Checks the format and fixes the destination: its extension is replaced by
/// the format's. An unknown format fails before anything else.
pub fn plan_export(format: &str, size: u32, output: Option<&str>) -> (r: Result<ExportPlan, Error>)
    ensures
        r is Ok <==> format_named(format@) is Some,
        format_named(format@) is None ==> (r matches Err(Error::UnsupportedFormat(n)) && n@ == format@),
        r matches Ok(p) ==> {
            &&& Some(p.format) == format_named(format@)
            &&& p.size == size
            &&& p.low_resolution == (p.format == ImageFormat::Png && size <= LOW_RESOLUTION_LIMIT)
            &&& output is None ==> p.destination is None
            &&& output matches Some(o) ==> (p.destination matches Some(d) && d@ == path_with_extension(
                o@,
                format_extension(p.format),
            ))
        },
{
    let f = match ImageFormat::parse(format) {
        Ok(f) => f,
        Err(e) => return Err(e),
    };
    let destination = match output {
        Some(o) => {
            let ext = f.extension();
            Some(with_extension(o, ext.as_str()))
        },
        None => None,
    };
    let low_resolution = match f {
        ImageFormat::Png => size <= LOW_RESOLUTION_LIMIT,
        ImageFormat::Svg => false,
    };
    Ok(ExportPlan { format: f, size, destination, low_resolution })
}

/// Whether an export must stop because its destination exists and may not be
/// overwritten.
pub open spec fn refuses_overwrite(plan: ExportPlan, overwrite: bool, destination_exists: bool) -> bool {
    plan.destination is Some && !overwrite && destination_exists
}

/// Produces the artifact of a planned export. An existing destination without
/// permission to overwrite fails first; SVG is passed through verbatim; PNG is
/// rasterized at the plan's size.
pub fn export(plan: &ExportPlan, image: &str, overwrite: bool, destination_exists: bool) -> (r: Result<Artifact, Error>)
    ensures
        refuses_overwrite(*plan, overwrite, destination_exists) ==> (r matches Err(Error::FileExists(p))
            && plan.destination == Some(p)),
        !refuses_overwrite(*plan, overwrite, destination_exists) && plan.format == ImageFormat::Svg
            ==> (r matches Ok(Artifact::Vector(t)) && t@ == image@),
        !refuses_overwrite(*plan, overwrite, destination_exists) && plan.format == ImageFormat::Png
            ==> {
            &&& r is Ok <==> raster_succeeds(image@, plan.size)
            &&& r matches Ok(a) ==> (a matches Artifact::Raster(img) && img.width == plan.size
                && img.height == plan.size)
            &&& r matches Err(e) ==> raster_error(image@, plan.size, e)
        },
{
    if !overwrite && destination_exists {
        if let Some(d) = &plan.destination {
            return Err(Error::FileExists(d.clone()));
        }
    }
    match plan.format {
        ImageFormat::Svg => Ok(Artifact::Vector(String::from_str(image))),
        ImageFormat::Png => match rasterize(image, plan.size) {
            Ok(img) => Ok(Artifact::Raster(img)),
            Err(e) => Err(e),
        },
    }
}

} // verus!
