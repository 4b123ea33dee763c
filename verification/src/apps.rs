//! Application records and their icon images.
//!
//! An application record carries a display name, an optional
//! description, and an optional icon bitmap.  The icon is held as plain
//! RGBA bytes; rendering it as a `data:` URL goes through the PNG
//! encoder of the `image` crate and the `base64` crate, both behind
//! trusted wrappers.

use vstd::prelude::*;
use vstd::string::StringExecFns;
use vstd::string::StringSliceAdditionalSpecFns;

verus! {

/// The whole outcome of PNG-encoding an RGBA bitmap of the given size,
/// as the `image` crate produces it — the encoded bytes, or `None`
/// where the encoder refuses; the outcome depends on the arguments
/// alone.
pub uninterp spec fn png_of(width: u32, height: u32, rgba: Seq<u8>) -> Option<Seq<u8>>;

/// The base64 encoding of a byte sequence, standard alphabet with
/// padding, as the `base64` crate produces it; the result depends on
/// the bytes alone.
pub uninterp spec fn base64_of(bytes: Seq<u8>) -> Seq<char>;

/// Relies on `image::RgbaImage::from_vec` and `ImageBuffer::write_to`
/// with the PNG output format: encodes an RGBA bitmap of exactly
/// `4 * width * height` bytes as PNG, into memory.
#[verifier::external_body]
fn encode_png(width: u32, height: u32, rgba: &Vec<u8>) -> (r: Option<Vec<u8>>)
    requires
        0 < width,
        0 < height,
        rgba@.len() == 4 * width * height,
    ensures
        match r {
            Some(p) => png_of(width, height, rgba@) == Some(p@),
            None => png_of(width, height, rgba@) is None,
        },
{
    let buffer = match image::RgbaImage::from_vec(width, height, rgba.clone()) {
        Some(b) => b,
        None => {
            return None;
        },
    };
    let mut data: Vec<u8> = Vec::new();
    match buffer.write_to(&mut std::io::Cursor::new(&mut data), image::ImageOutputFormat::Png) {
        Ok(()) => Some(data),
        Err(_) => None,
    }
}

/// Relies on `base64::encode`: the standard alphabet with padding; the
/// result depends on the input bytes alone.
#[verifier::external_body]
fn encode_base64(bytes: &Vec<u8>) -> (r: String)
    requires
        bytes@.len() / 3 * 4 + 4 <= usize::MAX,
    ensures
        r@ == base64_of(bytes@),
{
    base64::encode(bytes.as_slice())
}

/// The scheme and media-type prefix of an icon's `data:` URL.
pub open spec fn data_url_prefix() -> Seq<char> {
    "data:image/png;base64,"@
}

/// Renders PNG bytes as a `data:` URL: the fixed prefix, then the
/// base64 encoding of the bytes.
pub fn data_url_from_png(png: &Vec<u8>) -> (r: String)
    requires
        png@.len() / 3 * 4 + 4 <= usize::MAX,
    ensures
        r@ == data_url_prefix() + base64_of(png@),
{
    let b64 = encode_base64(png);
    let prefix: String = "data:image/png;base64,".to_owned();
    prefix.concat(b64.as_str())
}

/// An icon bitmap: RGBA samples, four bytes per pixel, row by row.
#[derive(Clone, Debug)]
pub struct IconImage {
    pub width: u32,
    pub height: u32,
    pub rgba: Vec<u8>,
}

impl IconImage {
    /// The byte buffer holds exactly one RGBA quadruplet per pixel.
    pub open spec fn wf(&self) -> bool {
        self.rgba@.len() == 4 * self.width * self.height
    }

    /// Builds an icon from raw RGBA bytes; the buffer must hold exactly
    /// four bytes per pixel.
    pub fn from_rgba(width: u32, height: u32, rgba: Vec<u8>) -> (r: Option<IconImage>)
        ensures
            r is Some <==> rgba@.len() == 4 * width * height,
            r matches Some(img) ==> img.width == width && img.height == height && img.rgba@
                == rgba@ && img.wf(),
    {
        proof {
            assert((4u128 * (width as u128)) * (height as u128) <= u128::MAX)
                by (nonlinear_arith)
                requires
                    width <= u32::MAX,
                    height <= u32::MAX,
            ;
        }
        let need: u128 = 4u128 * (width as u128) * (height as u128);
        if (rgba.len() as u128) == need {
            Some(IconImage { width, height, rgba })
        } else {
            None
        }
    }
}

/// An application record: a display name, an optional description, and
/// an optional icon bitmap.
#[derive(Clone, Debug)]
pub struct App {
    pub name: String,
    pub description: Option<String>,
    pub icon: Option<IconImage>,
}

/// The ASCII-lowercased counterpart of the byte `b`.
pub open spec fn ascii_lower(b: u8) -> u8 {
    if 65 <= b <= 90 {
        (b + 32) as u8
    } else {
        b
    }
}

/// Whether two byte sequences are equal up to ASCII case.
pub open spec fn spec_eq_ignore_ascii_case(a: Seq<u8>, b: Seq<u8>) -> bool {
    a.len() == b.len() && (forall|i: int|
        0 <= i < a.len() ==> ascii_lower(#[trigger] a[i]) == ascii_lower(b[i]))
}

/// The ASCII-lowercased counterpart of the byte `b`.
fn ascii_lower_byte(b: u8) -> (r: u8)
    ensures
        r == ascii_lower(b),
{
    if 65 <= b && b <= 90 {
        b + 32
    } else {
        b
    }
}

/// Compares two strings byte-wise, ignoring ASCII case.
pub fn eq_ignore_ascii_case(a: &str, b: &str) -> (r: bool)
    ensures
        r == spec_eq_ignore_ascii_case(a.spec_bytes(), b.spec_bytes()),
{
    let ab = a.as_bytes();
    let bb = b.as_bytes();
    if ab.len() != bb.len() {
        return false;
    }
    let mut i: usize = 0;
    while i < ab.len()
        invariant
            ab@ == a.spec_bytes(),
            bb@ == b.spec_bytes(),
            ab@.len() == bb@.len(),
            i <= ab@.len(),
            forall|j: int| 0 <= j < i ==> ascii_lower(#[trigger] ab@[j]) == ascii_lower(bb@[j]),
        decreases ab@.len() - i,
    {
        if ascii_lower_byte(ab[i]) != ascii_lower_byte(bb[i]) {
            proof {
                assert(ascii_lower(a.spec_bytes()[i as int]) != ascii_lower(
                    b.spec_bytes()[i as int],
                ));
            }
            return false;
        }
        i = i + 1;
    }
    true
}

impl App {
    /// Every held icon is a well-formed, non-empty bitmap.
    pub open spec fn wf(&self) -> bool {
        match self.icon {
            Some(i) => i.wf() && 0 < i.width && 0 < i.height,
            None => true,
        }
    }

    /// The display name of the application.
    pub fn get_name(&self) -> (r: &String)
        ensures
            r == &self.name,
    {
        &self.name
    }

    /// The description of the application, when the desktop registry
    /// carries one.
    pub fn get_description(&self) -> (r: &Option<String>)
        ensures
            r == &self.description,
    {
        &self.description
    }

    /// The icon bitmap of the application, when one was found.
    pub fn get_icon(&self) -> (r: &Option<IconImage>)
        ensures
            r == &self.icon,
    {
        &self.icon
    }

    /// Whether `name` names this application, up to ASCII case.
    pub fn matches_name(&self, name: &str) -> (r: bool)
        ensures
            r == spec_eq_ignore_ascii_case(
                vstd::utf8::encode_utf8(self.name@),
                name.spec_bytes(),
            ),
    {
        eq_ignore_ascii_case(self.name.as_str(), name)
    }

    /// The icon rendered as a `data:` URL: the PNG encoding of the
    /// bitmap, in base64, behind the fixed prefix.  `Some` exactly when
    /// the record holds an icon, the encoder accepts it, and the
    /// encoding fits the base64 size limit.
    pub fn get_base64_icon(&self) -> (r: Option<String>)
        requires
            self.wf(),
        ensures
            self.icon is None ==> r is None,
            r is Some <==> (self.icon matches Some(i) && png_of(i.width, i.height, i.rgba@)
                matches Some(p) && p.len() / 3 * 4 + 4 <= usize::MAX),
            r matches Some(s) ==> (self.icon matches Some(i) && png_of(i.width, i.height, i.rgba@)
                matches Some(p) && s@ == data_url_prefix() + base64_of(p)),
    {
        let icon = match &self.icon {
            Some(icon) => icon,
            None => {
                return None;
            },
        };
        let png = match encode_png(icon.width, icon.height, &icon.rgba) {
            Some(png) => png,
            None => {
                return None;
            },
        };
        if png.len() / 3 <= (usize::MAX - 4) / 4 {
            proof {
                let l = png@.len() as int;
                let m = ((usize::MAX - 4) / 4) as int;
                assert(l / 3 * 4 + 4 <= usize::MAX) by (nonlinear_arith)
                    requires
                        0 <= l,
                        l / 3 <= m,
                        m == (usize::MAX - 4) as int / 4,
                ;
            }
            Some(data_url_from_png(&png))
        } else {
            proof {
                let l = png@.len() as int;
                let m = ((usize::MAX - 4) / 4) as int;
                assert(l / 3 * 4 + 4 > usize::MAX) by (nonlinear_arith)
                    requires
                        0 <= l,
                        l / 3 > m,
                        m == (usize::MAX - 4) as int / 4,
                ;
            }
            None
        }
    }
}

/// The listing of the desktop's applications.
#[derive(Clone, Debug)]
pub struct Apps {
    pub apps: Vec<App>,
}

impl Apps {
    /// The application records of the listing.
    pub fn get_apps(&self) -> (r: &Vec<App>)
        ensures
            r == &self.apps,
    {
        &self.apps
    }
}

} // verus!
