//! What becomes of a tool result: JSON as it is, its text, or its one image written to a
//! file.

use vstd::prelude::*;
use base64::Engine;
use crate::json::{
    JsonSpec, array_field, field, json_as_array, json_as_str, json_get, json_is_object,
    json_model, json_object, json_parse, json_read, json_set, json_str, json_u64, models,
    str_field,
};
use crate::text::{
    all_space, ascii_lowercase, chars_of, join, join_strings, opt_text, push_char, starts_with,
    str_eq, texts, to_ascii_lowercase, trim, trim_range,
};

verus! {

/// What can go wrong while preparing a tool result for output; `S` is the type of texts and
/// `L` that of lists of texts.
#[derive(Debug)]
pub enum OutputErrorOf<S, L> {
    /// `--text` and `--output` were both given.
    TextAndOutput,
    /// The result has no `content` array.
    NoContentArray,
    /// The result holds no image that can be written.
    NoImage,
    /// The result holds this many images.
    ManyImages { count: usize },
    /// An image content item has no data.
    ImageMissingData,
    /// An image content item has no MIME type.
    ImageMissingMime,
    /// An image content item has a MIME type that is not an image type.
    IncompatibleImageMime { mime: S },
    /// An embedded resource is not an object.
    ResourceMalformed,
    /// An embedded image resource has no data.
    ResourceMissingData,
    /// An embedded image resource has no MIME type.
    ResourceMissingMime,
    /// No file extension is known for the image type.
    UnsupportedMime { mime: S },
    /// The output path has an extension that does not fit the image type.
    IncompatibleExtension { extension: S, mime: S },
    /// The image data is not valid base64.
    InvalidBase64 { detail: S },
    /// `--text` was asked of a result with content of these other kinds.
    NonTextContent { kinds: L },
    /// A text content item has no text.
    TextWithoutValue,
    /// The result has no text.
    NoText,
    /// A file of `list_files` has no name.
    FileWithoutName,
    /// The `list_files` result has no `files` array.
    NoFilesArray,
}

/// An error while preparing output.
pub type OutputError = OutputErrorOf<String, Vec<String>>;

/// The description of an output error.
pub type OutputFault = OutputErrorOf<Seq<char>, Seq<Seq<char>>>;

impl View for OutputErrorOf<String, Vec<String>> {
    type V = OutputFault;

    open spec fn view(&self) -> OutputFault {
        match self {
            OutputErrorOf::TextAndOutput => OutputErrorOf::TextAndOutput,
            OutputErrorOf::NoContentArray => OutputErrorOf::NoContentArray,
            OutputErrorOf::NoImage => OutputErrorOf::NoImage,
            OutputErrorOf::ManyImages { count } => OutputErrorOf::ManyImages { count: *count },
            OutputErrorOf::ImageMissingData => OutputErrorOf::ImageMissingData,
            OutputErrorOf::ImageMissingMime => OutputErrorOf::ImageMissingMime,
            OutputErrorOf::IncompatibleImageMime { mime } => OutputErrorOf::IncompatibleImageMime {
                mime: mime@,
            },
            OutputErrorOf::ResourceMalformed => OutputErrorOf::ResourceMalformed,
            OutputErrorOf::ResourceMissingData => OutputErrorOf::ResourceMissingData,
            OutputErrorOf::ResourceMissingMime => OutputErrorOf::ResourceMissingMime,
            OutputErrorOf::UnsupportedMime { mime } => OutputErrorOf::UnsupportedMime {
                mime: mime@,
            },
            OutputErrorOf::IncompatibleExtension { extension, mime } =>
                OutputErrorOf::IncompatibleExtension { extension: extension@, mime: mime@ },
            OutputErrorOf::InvalidBase64 { detail } => OutputErrorOf::InvalidBase64 {
                detail: detail@,
            },
            OutputErrorOf::NonTextContent { kinds } => OutputErrorOf::NonTextContent {
                kinds: texts(kinds@),
            },
            OutputErrorOf::TextWithoutValue => OutputErrorOf::TextWithoutValue,
            OutputErrorOf::NoText => OutputErrorOf::NoText,
            OutputErrorOf::FileWithoutName => OutputErrorOf::FileWithoutName,
            OutputErrorOf::NoFilesArray => OutputErrorOf::NoFilesArray,
        }
    }
}

/// The message that describes an output error.
pub open spec fn output_message(e: OutputFault) -> Seq<char> {
    match e {
        OutputErrorOf::TextAndOutput => "--text and --output cannot be used together"@,
        OutputErrorOf::NoContentArray =>
            "tool result has no MCP content array; omit output options to see the full JSON"@,
        OutputErrorOf::NoImage =>
            "tool response contains no writable image; omit --output to inspect structured JSON"@,
        OutputErrorOf::ManyImages { count } => "tool response contains "@ + crate::text::decimal(
            count as nat,
        ) + " images; --output requires exactly one writable image"@,
        OutputErrorOf::ImageMissingData => "image content is missing base64 data"@,
        OutputErrorOf::ImageMissingMime => "image content is missing a MIME type"@,
        OutputErrorOf::IncompatibleImageMime { mime } =>
            "image content has incompatible MIME type `"@ + mime + "`"@,
        OutputErrorOf::ResourceMalformed => "embedded image resource is malformed"@,
        OutputErrorOf::ResourceMissingData => "embedded image resource is missing base64 data"@,
        OutputErrorOf::ResourceMissingMime => "embedded image resource is missing a MIME type"@,
        OutputErrorOf::UnsupportedMime { mime } => "unsupported image MIME type `"@ + mime + "`"@,
        OutputErrorOf::IncompatibleExtension { extension, mime } => "output extension ."@
            + extension + " is incompatible with returned MIME type `"@ + mime + "`"@,
        OutputErrorOf::InvalidBase64 { detail } => "Paper returned invalid base64 image data: "@
            + detail,
        OutputErrorOf::NonTextContent { kinds } => "tool returned non-text MCP content ("@ + join(
            kinds,
            ", "@,
        )
            + "); omit --text for structured JSON or use --output <path> to write a single image"@,
        OutputErrorOf::TextWithoutValue => "Paper returned text content without a text value"@,
        OutputErrorOf::NoText => "tool returned no text content; omit --text to see the full JSON"@,
        OutputErrorOf::FileWithoutName => "list_files returned a file without a name"@,
        OutputErrorOf::NoFilesArray => "list_files response does not contain a files array"@,
    }
}

impl OutputErrorOf<String, Vec<String>> {
    /// The message that describes this error.
    pub fn message(&self) -> (r: String)
        ensures
            r@ == output_message(self@),
    {
        let mut r = String::new();
        match self {
            OutputErrorOf::TextAndOutput => {
                r.append("--text and --output cannot be used together");
            },
            OutputErrorOf::NoContentArray => {
                r.append(
                    "tool result has no MCP content array; omit output options to see the full JSON",
                );
            },
            OutputErrorOf::NoImage => {
                r.append(
                    "tool response contains no writable image; omit --output to inspect structured JSON",
                );
            },
            OutputErrorOf::ManyImages { count } => {
                r.append("tool response contains ");
                let n = crate::text::u64_text(*count as u64);
                r.append(n.as_str());
                r.append(" images; --output requires exactly one writable image");
            },
            OutputErrorOf::ImageMissingData => {
                r.append("image content is missing base64 data");
            },
            OutputErrorOf::ImageMissingMime => {
                r.append("image content is missing a MIME type");
            },
            OutputErrorOf::IncompatibleImageMime { mime } => {
                r.append("image content has incompatible MIME type `");
                r.append(mime.as_str());
                r.append("`");
            },
            OutputErrorOf::ResourceMalformed => {
                r.append("embedded image resource is malformed");
            },
            OutputErrorOf::ResourceMissingData => {
                r.append("embedded image resource is missing base64 data");
            },
            OutputErrorOf::ResourceMissingMime => {
                r.append("embedded image resource is missing a MIME type");
            },
            OutputErrorOf::UnsupportedMime { mime } => {
                r.append("unsupported image MIME type `");
                r.append(mime.as_str());
                r.append("`");
            },
            OutputErrorOf::IncompatibleExtension { extension, mime } => {
                r.append("output extension .");
                r.append(extension.as_str());
                r.append(" is incompatible with returned MIME type `");
                r.append(mime.as_str());
                r.append("`");
            },
            OutputErrorOf::InvalidBase64 { detail } => {
                r.append("Paper returned invalid base64 image data: ");
                r.append(detail.as_str());
            },
            OutputErrorOf::NonTextContent { kinds } => {
                r.append("tool returned non-text MCP content (");
                let k = join_strings(kinds, ", ");
                r.append(k.as_str());
                r.append(
                    "); omit --text for structured JSON or use --output <path> to write a single image",
                );
            },
            OutputErrorOf::TextWithoutValue => {
                r.append("Paper returned text content without a text value");
            },
            OutputErrorOf::NoText => {
                r.append("tool returned no text content; omit --text to see the full JSON");
            },
            OutputErrorOf::FileWithoutName => {
                r.append("list_files returned a file without a name");
            },
            OutputErrorOf::NoFilesArray => {
                r.append("list_files response does not contain a files array");
            },
        }
        r
    }
}

// ---------------------------------------------------------------------------------------
// MIME types and paths
// ---------------------------------------------------------------------------------------

/// The part of `s` before the first `c`, or all of `s`.
pub open spec fn before_char(s: Seq<char>, c: char) -> Seq<char>
    decreases s.len(),
{
    if s.len() == 0 {
        Seq::empty()
    } else if s[0] == c {
        Seq::empty()
    } else {
        seq![s[0]] + before_char(s.drop_first(), c)
    }
}

proof fn lemma_before_char(s: Seq<char>, c: char, i: int)
    requires
        0 <= i <= s.len(),
        forall|j: int| 0 <= j < i ==> s[j] != c,
        i == s.len() || s[i] == c,
    ensures
        before_char(s, c) == s.take(i),
    decreases i,
{
    if i == 0 {
        assert(s.take(0) =~= Seq::<char>::empty());
    } else {
        let t = s.drop_first();
        assert forall|j: int| 0 <= j < i - 1 implies t[j] != c by {
            assert(t[j] == s[j + 1]);
        }
        if i - 1 < t.len() {
            assert(t[i - 1] == s[i]);
        }
        lemma_before_char(t, c, i - 1);
        assert(s.take(i) =~= seq![s[0]] + t.take(i - 1));
    }
}

/// A MIME type without parameters, white space or upper case: the essence by which image
/// types are compared.
pub open spec fn normalize_mime(m: Seq<char>) -> Seq<char> {
    ascii_lowercase(trim(before_char(m, ';')))
}

/// Removes a MIME type's parameters, surrounding white space and upper case, as in
/// `Image/PNG; charset=x` to `image/png`.
pub fn normalize_mime_type(mime_type: &str) -> (r: String)
    ensures
        r@ == normalize_mime(mime_type@),
{
    let cs = chars_of(mime_type);
    let mut i: usize = 0;
    while i < cs.len() && cs[i] != ';'
        invariant
            cs@ == mime_type@,
            i <= cs@.len(),
            forall|j: int| 0 <= j < i ==> cs@[j] != ';',
        decreases cs@.len() - i,
    {
        i = i + 1;
    }
    proof {
        lemma_before_char(cs@, ';', i as int);
        assert(cs@.subrange(0, i as int) =~= cs@.take(i as int));
    }
    let trimmed = trim_range(&cs, 0, i);
    to_ascii_lowercase(trimmed.as_str())
}

/// Whether a MIME type is an image type.
pub open spec fn is_image_spec(m: Seq<char>) -> bool {
    let n = normalize_mime(m);
    "image/"@.len() <= n.len() && n.take("image/"@.len() as int) == "image/"@
}

/// Whether a MIME type names an image, whatever its case, parameters or surrounding space.
pub fn is_image_mime(mime_type: &str) -> (r: bool)
    ensures
        r == is_image_spec(mime_type@),
{
    let n = normalize_mime_type(mime_type);
    starts_with(n.as_str(), "image/")
}

/// The extension of a path, as `std::path::Path::extension` gives it.
pub uninterp spec fn path_extension_of(p: Seq<char>) -> Option<Seq<char>>;

/// A path with its extension set, as `std::path::Path::with_extension` gives it.
pub uninterp spec fn path_with_extension_of(p: Seq<char>, ext: Seq<char>) -> Seq<char>;

/// Whether a path is one plain file name: not empty, not `.` or `..`, and without `/`, `\`
/// or `:`.
pub open spec fn plain_file_name(p: Seq<char>) -> bool {
    &&& p.len() > 0
    &&& p != "."@
    &&& p != ".."@
    &&& !p.contains('/')
    &&& !p.contains('\\')
    &&& !p.contains(':')
}

/// The index of the last `.` of a text, or -1.
pub open spec fn last_dot(p: Seq<char>) -> int
    decreases p.len(),
{
    if p.len() == 0 {
        -1
    } else if p.last() == '.' {
        p.len() - 1
    } else {
        last_dot(p.drop_last())
    }
}

/// The extension of a file name: what follows its last `.`, unless that dot is its first
/// character or there is none.
pub open spec fn name_extension(p: Seq<char>) -> Option<Seq<char>> {
    let i = last_dot(p);
    if i <= 0 {
        None
    } else {
        Some(p.skip(i + 1))
    }
}

/// Whether a text holds no path separator.
pub open spec fn no_separator(s: Seq<char>) -> bool {
    !s.contains('/') && !s.contains('\\')
}

/// Calls `std::path::Path::extension`: the part of the file name after its last `.`, when
/// there is one and the name is not only a leading dot. Of a path that is one plain file
/// name, that is stated; of other paths, only that a path without any `.` has none.
#[verifier::external_body]
pub(crate) fn path_extension(p: &str) -> (r: Option<String>)
    ensures
        opt_text(r) == path_extension_of(p@),
        !p@.contains('.') ==> r is None,
        plain_file_name(p@) ==> opt_text(r) == name_extension(p@),
{
    std::path::Path::new(p).extension().map(|e| e.to_string_lossy().into_owned())
}

/// Calls `std::path::Path::with_extension`: the path with the extension of its file name
/// replaced by `ext`, or added after a `.`. Of a plain file name without extension and a
/// non-empty `ext`, the addition is stated; of other paths, nothing more.
#[verifier::external_body]
pub(crate) fn path_with_extension(p: &str, ext: &str) -> (r: String)
    requires
        no_separator(ext@),
    ensures
        r@ == path_with_extension_of(p@, ext@),
        plain_file_name(p@) && name_extension(p@) is None && ext@.len() > 0 ==> r@ == p@ + "."@
            + ext@,
{
    std::path::Path::new(p).with_extension(ext).to_string_lossy().into_owned()
}

/// The file extension written for an image type, and those accepted for it.
pub open spec fn extension_table(mime: Seq<char>) -> Option<(Seq<char>, Seq<Seq<char>>)> {
    if mime == "image/jpeg"@ || mime == "image/jpg"@ {
        Some(("jpg"@, seq!["jpg"@, "jpeg"@]))
    } else if mime == "image/png"@ {
        Some(("png"@, seq!["png"@]))
    } else if mime == "image/webp"@ {
        Some(("webp"@, seq!["webp"@]))
    } else if mime == "image/gif"@ {
        Some(("gif"@, seq!["gif"@]))
    } else if mime == "image/svg+xml"@ {
        Some(("svg"@, seq!["svg"@]))
    } else if mime == "image/avif"@ {
        Some(("avif"@, seq!["avif"@]))
    } else if mime == "image/tiff"@ {
        Some(("tiff"@, seq!["tif"@, "tiff"@]))
    } else if mime == "image/bmp"@ {
        Some(("bmp"@, seq!["bmp"@]))
    } else if mime == "image/x-icon"@ || mime == "image/vnd.microsoft.icon"@ {
        Some(("ico"@, seq!["ico"@]))
    } else {
        None
    }
}

/// Whether the file extension `ext` names the image format of type `mime`: it is the type's
/// subtype, or a usual short form of it (`jpg` and `jpeg` for JPEG, `svg` for SVG, `tif`
/// for TIFF, `ico` for icons).
pub open spec fn names_format(ext: Seq<char>, mime: Seq<char>) -> bool {
    ||| mime == "image/"@ + ext
    ||| (mime == "image/jpeg"@ || mime == "image/jpg"@) && (ext == "jpg"@ || ext == "jpeg"@)
    ||| mime == "image/svg+xml"@ && ext == "svg"@
    ||| mime == "image/tiff"@ && ext == "tif"@
    ||| (mime == "image/x-icon"@ || mime == "image/vnd.microsoft.icon"@) && ext == "ico"@
}

/// The image types that can be written to a file.
pub open spec fn writable_image_type(mime: Seq<char>) -> bool {
    ||| mime == "image/jpeg"@
    ||| mime == "image/jpg"@
    ||| mime == "image/png"@
    ||| mime == "image/webp"@
    ||| mime == "image/gif"@
    ||| mime == "image/svg+xml"@
    ||| mime == "image/avif"@
    ||| mime == "image/tiff"@
    ||| mime == "image/bmp"@
    ||| mime == "image/x-icon"@
    ||| mime == "image/vnd.microsoft.icon"@
}

/// Every image type that can be written has extensions, and no other type has: the one
/// written names the type's own format and is among those accepted, and every accepted one
/// names that format too; for a type whose subtype is itself an extension, such as
/// `image/webp` or `image/png`, that subtype is the one written.
pub proof fn lemma_extensions_name_the_format(mime: Seq<char>)
    ensures
        extension_table(mime) is Some <==> writable_image_type(mime),
        extension_table(mime) matches Some((p, c)) ==> c.contains(p) && names_format(p, mime)
            && forall|i: int| 0 <= i < c.len() ==> names_format(#[trigger] c[i], mime),
        (mime == "image/png"@ || mime == "image/webp"@ || mime == "image/gif"@ || mime
            == "image/avif"@ || mime == "image/tiff"@ || mime == "image/bmp"@) ==> (extension_table(
            mime,
        ) matches Some((p, _)) && mime == "image/"@ + p),
{
    reveal_strlit("image/jpeg");
    reveal_strlit("image/jpg");
    reveal_strlit("image/png");
    reveal_strlit("image/webp");
    reveal_strlit("image/gif");
    reveal_strlit("image/svg+xml");
    reveal_strlit("image/avif");
    reveal_strlit("image/tiff");
    reveal_strlit("image/bmp");
    reveal_strlit("image/x-icon");
    reveal_strlit("image/vnd.microsoft.icon");
    reveal_strlit("jpg");
    reveal_strlit("jpeg");
    reveal_strlit("png");
    reveal_strlit("webp");
    reveal_strlit("gif");
    reveal_strlit("svg");
    reveal_strlit("avif");
    reveal_strlit("tif");
    reveal_strlit("tiff");
    reveal_strlit("bmp");
    reveal_strlit("ico");
    reveal_strlit("image/");
    assert("image/"@ + "jpeg"@ =~= "image/jpeg"@);
    assert("image/"@ + "jpg"@ =~= "image/jpg"@);
    assert("image/"@ + "png"@ =~= "image/png"@);
    assert("image/"@ + "webp"@ =~= "image/webp"@);
    assert("image/"@ + "gif"@ =~= "image/gif"@);
    assert("image/"@ + "avif"@ =~= "image/avif"@);
    assert("image/"@ + "tiff"@ =~= "image/tiff"@);
    assert("image/"@ + "bmp"@ =~= "image/bmp"@);
    if mime == "image/png"@ {
        assert("image/png"@ != "image/jpeg"@) by {
            assert("image/png"@[6] != "image/jpeg"@[6]);
        }
        assert("image/png"@ != "image/jpg"@) by {
            assert("image/png"@[6] != "image/jpg"@[6]);
        }
    }
    if mime == "image/webp"@ {
        assert("image/webp"@ != "image/jpeg"@) by {
            assert("image/webp"@[6] != "image/jpeg"@[6]);
        }
        assert("image/webp"@ != "image/jpg"@) by {
            assert("image/webp"@[6] != "image/jpg"@[6]);
        }
        assert("image/webp"@ != "image/png"@) by {
            assert("image/webp"@[6] != "image/png"@[6]);
        }
    }
    if mime == "image/gif"@ {
        assert("image/gif"@ != "image/jpeg"@) by {
            assert("image/gif"@[6] != "image/jpeg"@[6]);
        }
        assert("image/gif"@ != "image/jpg"@) by {
            assert("image/gif"@[6] != "image/jpg"@[6]);
        }
        assert("image/gif"@ != "image/png"@) by {
            assert("image/gif"@[6] != "image/png"@[6]);
        }
        assert("image/gif"@ != "image/webp"@) by {
            assert("image/gif"@[6] != "image/webp"@[6]);
        }
    }
    if mime == "image/avif"@ {
        assert("image/avif"@ != "image/jpeg"@) by {
            assert("image/avif"@[6] != "image/jpeg"@[6]);
        }
        assert("image/avif"@ != "image/jpg"@) by {
            assert("image/avif"@[6] != "image/jpg"@[6]);
        }
        assert("image/avif"@ != "image/png"@) by {
            assert("image/avif"@[6] != "image/png"@[6]);
        }
        assert("image/avif"@ != "image/webp"@) by {
            assert("image/avif"@[6] != "image/webp"@[6]);
        }
        assert("image/avif"@ != "image/gif"@) by {
            assert("image/avif"@[6] != "image/gif"@[6]);
        }
        assert("image/avif"@ != "image/svg+xml"@) by {
            assert("image/avif"@[6] != "image/svg+xml"@[6]);
        }
    }
    if mime == "image/tiff"@ {
        assert("image/tiff"@ != "image/jpeg"@) by {
            assert("image/tiff"@[6] != "image/jpeg"@[6]);
        }
        assert("image/tiff"@ != "image/jpg"@) by {
            assert("image/tiff"@[6] != "image/jpg"@[6]);
        }
        assert("image/tiff"@ != "image/png"@) by {
            assert("image/tiff"@[6] != "image/png"@[6]);
        }
        assert("image/tiff"@ != "image/webp"@) by {
            assert("image/tiff"@[6] != "image/webp"@[6]);
        }
        assert("image/tiff"@ != "image/gif"@) by {
            assert("image/tiff"@[6] != "image/gif"@[6]);
        }
        assert("image/tiff"@ != "image/svg+xml"@) by {
            assert("image/tiff"@[6] != "image/svg+xml"@[6]);
        }
        assert("image/tiff"@ != "image/avif"@) by {
            assert("image/tiff"@[6] != "image/avif"@[6]);
        }
    }
    if mime == "image/bmp"@ {
        assert("image/bmp"@ != "image/jpeg"@) by {
            assert("image/bmp"@[6] != "image/jpeg"@[6]);
        }
        assert("image/bmp"@ != "image/jpg"@) by {
            assert("image/bmp"@[6] != "image/jpg"@[6]);
        }
        assert("image/bmp"@ != "image/png"@) by {
            assert("image/bmp"@[6] != "image/png"@[6]);
        }
        assert("image/bmp"@ != "image/webp"@) by {
            assert("image/bmp"@[6] != "image/webp"@[6]);
        }
        assert("image/bmp"@ != "image/gif"@) by {
            assert("image/bmp"@[6] != "image/gif"@[6]);
        }
        assert("image/bmp"@ != "image/svg+xml"@) by {
            assert("image/bmp"@[6] != "image/svg+xml"@[6]);
        }
        assert("image/bmp"@ != "image/avif"@) by {
            assert("image/bmp"@[6] != "image/avif"@[6]);
        }
        assert("image/bmp"@ != "image/tiff"@) by {
            assert("image/bmp"@[6] != "image/tiff"@[6]);
        }
    }
    match extension_table(mime) {
        Some((p, c)) => {
            assert(c[0] == p || c.len() > 1 && c[1] == p);
        },
        None => {},
    }
}

/// The extensions of an image type: the one written, and those accepted.
fn extensions_for(mime: &str) -> (r: Option<(String, Vec<String>)>)
    ensures
        match (r, extension_table(mime@)) {
            (Some((p, c)), Some((sp, sc))) => p@ == sp && texts(c@) == sc,
            (None, None) => true,
            _ => false,
        },
        r matches Some((p, _)) ==> no_separator(p@),
{
    let mut compatible: Vec<String> = Vec::new();
    let preferred;
    if str_eq(mime, "image/jpeg") || str_eq(mime, "image/jpg") {
        preferred = "jpg";
        compatible.push("jpg".to_owned());
        compatible.push("jpeg".to_owned());
    } else if str_eq(mime, "image/png") {
        preferred = "png";
        compatible.push("png".to_owned());
    } else if str_eq(mime, "image/webp") {
        preferred = "webp";
        compatible.push("webp".to_owned());
    } else if str_eq(mime, "image/gif") {
        preferred = "gif";
        compatible.push("gif".to_owned());
    } else if str_eq(mime, "image/svg+xml") {
        preferred = "svg";
        compatible.push("svg".to_owned());
    } else if str_eq(mime, "image/avif") {
        preferred = "avif";
        compatible.push("avif".to_owned());
    } else if str_eq(mime, "image/tiff") {
        preferred = "tiff";
        compatible.push("tif".to_owned());
        compatible.push("tiff".to_owned());
    } else if str_eq(mime, "image/bmp") {
        preferred = "bmp";
        compatible.push("bmp".to_owned());
    } else if str_eq(mime, "image/x-icon") || str_eq(mime, "image/vnd.microsoft.icon") {
        preferred = "ico";
        compatible.push("ico".to_owned());
    } else {
        return None;
    }
    let ghost c = texts(compatible@);
    assert(c =~= extension_table(mime@).unwrap().1);
    proof {
        reveal_strlit("jpg");
        reveal_strlit("png");
        reveal_strlit("webp");
        reveal_strlit("gif");
        reveal_strlit("svg");
        reveal_strlit("avif");
        reveal_strlit("tiff");
        reveal_strlit("bmp");
        reveal_strlit("ico");
    }
    Some((preferred.to_owned(), compatible))
}

/// Where an image of type `mime` is written when `requested` is asked for: the requested
/// path when its extension fits the type, or the path with the type's extension when it has
/// none.
pub open spec fn output_path_spec(requested: Seq<char>, mime: Seq<char>) -> Result<
    Seq<char>,
    OutputFault,
> {
    match extension_table(mime) {
        None => Err(OutputErrorOf::UnsupportedMime { mime }),
        Some((preferred, compatible)) => match path_extension_of(requested) {
            None => Ok(path_with_extension_of(requested, preferred)),
            Some(e) => {
                let lower = ascii_lowercase(e);
                if compatible.contains(lower) {
                    Ok(requested)
                } else {
                    Err(OutputErrorOf::IncompatibleExtension { extension: lower, mime })
                }
            },
        },
    }
}

/// An image is written under the path asked for when that path already has the extension
/// written for the image's type, in any case; and a path without extension gets that
/// extension.
pub proof fn lemma_own_extension_is_accepted(requested: Seq<char>, mime: Seq<char>)
    ensures
        extension_table(mime) matches Some((p, _)) ==> (path_extension_of(requested) matches Some(e)
            && ascii_lowercase(e) == p ==> output_path_spec(requested, mime) == Ok::<
            Seq<char>,
            OutputFault,
        >(requested)),
        extension_table(mime) matches Some((p, _)) ==> (path_extension_of(requested) is None
            ==> output_path_spec(requested, mime) == Ok::<Seq<char>, OutputFault>(
            path_with_extension_of(requested, p),
        )),
{
    lemma_extensions_name_the_format(mime);
}

/// The path to write an image of the normalized type `mime_type` to, given the path asked
/// for.
#[verifier::loop_isolation(false)]
pub fn resolve_output_path(requested_path: &str, mime_type: &str) -> (r: Result<String, OutputError>)
    ensures
        match (r, output_path_spec(requested_path@, mime_type@)) {
            (Ok(p), Ok(s)) => p@ == s,
            (Err(e), Err(f)) => e@ == f,
            _ => false,
        },
{
    let (preferred, compatible) = match extensions_for(mime_type) {
        Some(t) => t,
        None => return Err(OutputErrorOf::UnsupportedMime { mime: mime_type.to_owned() }),
    };
    let extension = match path_extension(requested_path) {
        None => return Ok(path_with_extension(requested_path, preferred.as_str())),
        Some(e) => e,
    };
    let lower = to_ascii_lowercase(extension.as_str());
    let mut i: usize = 0;
    while i < compatible.len()
        invariant
            i <= compatible@.len(),
            forall|j: int| 0 <= j < i ==> texts(compatible@)[j] != lower@,
        decreases compatible@.len() - i,
    {
        if str_eq(compatible[i].as_str(), lower.as_str()) {
            assert(texts(compatible@)[i as int] == lower@);
            return Ok(requested_path.to_owned());
        }
        i = i + 1;
    }
    Err(OutputErrorOf::IncompatibleExtension { extension: lower, mime: mime_type.to_owned() })
}

// ---------------------------------------------------------------------------------------
// Content
// ---------------------------------------------------------------------------------------

/// The content items of a tool result.
pub fn content_array(result: &serde_json::Value) -> (r: Result<&Vec<serde_json::Value>, OutputError>)
    ensures
        match array_field(json_model(*result), "content"@) {
            Some(items) => r matches Ok(v) && models(v@) == items,
            None => r matches Err(e) && e@ == OutputFault::NoContentArray,
        },
{
    match json_get(result, "content") {
        Some(c) => match json_as_array(c) {
            Some(items) => Ok(items),
            None => Err(OutputErrorOf::NoContentArray),
        },
        None => Err(OutputErrorOf::NoContentArray),
    }
}

/// The MIME type of an embedded resource item.
pub open spec fn resource_mime_spec(item: JsonSpec) -> Option<Seq<char>> {
    if str_field(item, "type"@) == Some("resource"@) {
        match field(item, "resource"@) {
            Some(res) => str_field(res, "mimeType"@),
            None => None,
        }
    } else {
        None
    }
}

/// The MIME type of a content item that embeds a resource.
pub fn embedded_resource_mime(item: &serde_json::Value) -> (r: Option<String>)
    ensures
        match r {
            Some(m) => resource_mime_spec(json_model(*item)) == Some(m@),
            None => resource_mime_spec(json_model(*item)) is None,
        },
{
    let is_resource = match json_get(item, "type") {
        Some(t) => match json_as_str(t) {
            Some(s) => str_eq(s, "resource"),
            None => false,
        },
        None => false,
    };
    if !is_resource {
        return None;
    }
    match json_get(item, "resource") {
        Some(res) => match json_get(res, "mimeType") {
            Some(m) => match json_as_str(m) {
                Some(s) => Some(s.to_owned()),
                None => None,
            },
            None => None,
        },
        None => None,
    }
}

/// Whether a content item is an image: an `image` item, or an embedded resource of an image
/// type.
pub open spec fn is_image_item(item: JsonSpec) -> bool {
    str_field(item, "type"@) == Some("image"@) || match resource_mime_spec(item) {
        Some(m) => is_image_spec(m),
        None => false,
    }
}

fn item_is_image(item: &serde_json::Value) -> (r: bool)
    ensures
        r == is_image_item(json_model(*item)),
{
    let is_image = match json_get(item, "type") {
        Some(t) => match json_as_str(t) {
            Some(s) => str_eq(s, "image"),
            None => false,
        },
        None => false,
    };
    if is_image {
        return true;
    }
    match embedded_resource_mime(item) {
        Some(m) => is_image_mime(m.as_str()),
        None => false,
    }
}

/// The image items among `items`, in order.
pub open spec fn image_items(items: Seq<JsonSpec>) -> Seq<JsonSpec>
    decreases items.len(),
{
    if items.len() == 0 {
        Seq::empty()
    } else {
        let t = image_items(items.drop_last());
        if is_image_item(items.last()) {
            t.push(items.last())
        } else {
            t
        }
    }
}

/// The base64 data and MIME type of an image item.
pub open spec fn image_of(item: JsonSpec) -> Result<(Seq<char>, Seq<char>), OutputFault> {
    if str_field(item, "type"@) == Some("image"@) {
        match str_field(item, "data"@) {
            None => Err(OutputErrorOf::ImageMissingData),
            Some(data) => match str_field(item, "mimeType"@) {
                None => Err(OutputErrorOf::ImageMissingMime),
                Some(mime) => if is_image_spec(mime) {
                    Ok((data, mime))
                } else {
                    Err(OutputErrorOf::IncompatibleImageMime { mime })
                },
            },
        }
    } else {
        match field(item, "resource"@) {
            Some(JsonSpec::Object(m)) => match str_field(JsonSpec::Object(m), "blob"@) {
                None => Err(OutputErrorOf::ResourceMissingData),
                Some(data) => match str_field(JsonSpec::Object(m), "mimeType"@) {
                    None => Err(OutputErrorOf::ResourceMissingMime),
                    Some(mime) => Ok((data, mime)),
                },
            },
            _ => Err(OutputErrorOf::ResourceMalformed),
        }
    }
}

/// The one image of a tool result: its base64 data and MIME type.
pub open spec fn single_image(result: JsonSpec) -> Result<(Seq<char>, Seq<char>), OutputFault> {
    match array_field(result, "content"@) {
        None => Err(OutputErrorOf::NoContentArray),
        Some(items) => {
            let images = image_items(items);
            if images.len() == 0 {
                Err(OutputErrorOf::NoImage)
            } else if images.len() == 1 {
                image_of(images[0])
            } else {
                Err(OutputErrorOf::ManyImages { count: images.len() as usize })
            }
        },
    }
}

/// A required string member of an image item.
fn image_member(item: &serde_json::Value, key: &str, missing: OutputError) -> (r: Result<
    String,
    OutputError,
>)
    ensures
        match str_field(json_model(*item), key@) {
            Some(s) => r matches Ok(t) && t@ == s,
            None => r matches Err(e) && e == missing,
        },
{
    match json_get(item, key) {
        Some(v) => match json_as_str(v) {
            Some(s) => Ok(s.to_owned()),
            None => Err(missing),
        },
        None => Err(missing),
    }
}

/// The one writable image of a tool result: its base64 data and MIME type.
pub fn extract_single_image(result: &serde_json::Value) -> (r: Result<(String, String), OutputError>)
    ensures
        match (r, single_image(json_model(*result))) {
            (Ok((d, m)), Ok((sd, sm))) => d@ == sd && m@ == sm,
            (Err(e), Err(f)) => e@ == f,
            _ => false,
        },
{
    let items = match content_array(result) {
        Ok(items) => items,
        Err(e) => return Err(e),
    };
    let ghost all = models(items@);
    let mut count: usize = 0;
    let mut first: usize = 0;
    let mut i: usize = 0;
    while i < items.len()
        invariant
            all == models(items@),
            i <= items@.len(),
            count == image_items(all.take(i as int)).len(),
            count <= i,
            count >= 1 ==> first < i && image_items(all.take(i as int))[0] == all[first as int],
        decreases items@.len() - i,
    {
        assert(all.take(i + 1).drop_last() =~= all.take(i as int));
        assert(all.take(i + 1).last() == all[i as int]);
        if item_is_image(&items[i]) {
            if count == 0 {
                first = i;
            }
            count = count + 1;
        }
        i = i + 1;
    }
    assert(all.take(all.len() as int) =~= all);
    if count == 0 {
        return Err(OutputErrorOf::NoImage);
    } else if count > 1 {
        return Err(OutputErrorOf::ManyImages { count });
    }
    let item = &items[first];
    let is_image = match json_get(item, "type") {
        Some(t) => match json_as_str(t) {
            Some(s) => str_eq(s, "image"),
            None => false,
        },
        None => false,
    };
    if is_image {
        let data = match image_member(item, "data", OutputErrorOf::ImageMissingData) {
            Ok(d) => d,
            Err(e) => return Err(e),
        };
        let mime = match image_member(item, "mimeType", OutputErrorOf::ImageMissingMime) {
            Ok(m) => m,
            Err(e) => return Err(e),
        };
        if !is_image_mime(mime.as_str()) {
            return Err(OutputErrorOf::IncompatibleImageMime { mime });
        }
        return Ok((data, mime));
    }
    let resource = match json_get(item, "resource") {
        Some(res) => if json_is_object(res) {
            res
        } else {
            return Err(OutputErrorOf::ResourceMalformed);
        },
        None => return Err(OutputErrorOf::ResourceMalformed),
    };
    let data = match image_member(resource, "blob", OutputErrorOf::ResourceMissingData) {
        Ok(d) => d,
        Err(e) => return Err(e),
    };
    let mime = match image_member(resource, "mimeType", OutputErrorOf::ResourceMissingMime) {
        Ok(m) => m,
        Err(e) => return Err(e),
    };
    Ok((data, mime))
}

/// What the `base64` crate's standard engine decodes from a text, or its error message.
pub uninterp spec fn base64_decoded(data: Seq<char>) -> Result<Seq<u8>, Seq<char>>;

/// Calls `base64::engine::general_purpose::STANDARD.decode` on the bytes of `data`: the
/// decoded bytes, or the decoder's error message.
#[verifier::external_body]
pub(crate) fn decode_base64(data: &str) -> (r: Result<Vec<u8>, String>)
    ensures
        match (r, base64_decoded(data@)) {
            (Ok(b), Ok(sb)) => b@ == sb,
            (Err(e), Err(m)) => e@ == m,
            _ => false,
        },
{
    base64::engine::general_purpose::STANDARD.decode(data).map_err(|e| e.to_string())
}

/// An image ready to be written: the path, the normalized MIME type, the bytes, and whether
/// an existing file may be replaced.
#[derive(Debug)]
pub struct ImageFile {
    pub path: String,
    pub mime_type: String,
    pub bytes: Vec<u8>,
    pub force: bool,
}

/// The path, MIME type and bytes of the one image of a result, for the path asked for.
pub open spec fn image_plan(result: JsonSpec, requested: Seq<char>) -> Result<
    (Seq<char>, Seq<char>, Seq<u8>),
    OutputFault,
> {
    match single_image(result) {
        Err(e) => Err(e),
        Ok((data, mime)) => {
            let m = normalize_mime(mime);
            match output_path_spec(requested, m) {
                Err(e) => Err(e),
                Ok(path) => match base64_decoded(data) {
                    Err(d) => Err(OutputErrorOf::InvalidBase64 { detail: d }),
                    Ok(bytes) => Ok((path, m, bytes)),
                },
            }
        },
    }
}

/// Prepares the one image of a tool result for writing to `requested_path`.
pub fn plan_image(result: &serde_json::Value, requested_path: &str, force: bool) -> (r: Result<
    ImageFile,
    OutputError,
>)
    ensures
        match (r, image_plan(json_model(*result), requested_path@)) {
            (Ok(f), Ok((p, m, b))) => f.path@ == p && f.mime_type@ == m && f.bytes@ == b
                && f.force == force,
            (Err(e), Err(x)) => e@ == x,
            _ => false,
        },
{
    let (data, mime) = match extract_single_image(result) {
        Ok(t) => t,
        Err(e) => return Err(e),
    };
    let mime_type = normalize_mime_type(mime.as_str());
    let path = match resolve_output_path(requested_path, mime_type.as_str()) {
        Ok(p) => p,
        Err(e) => return Err(e),
    };
    let bytes = match decode_base64(data.as_str()) {
        Ok(b) => b,
        Err(detail) => return Err(OutputErrorOf::InvalidBase64 { detail }),
    };
    Ok(ImageFile { path, mime_type, bytes, force })
}

/// The report on a written image: its path, MIME type and size in bytes.
pub open spec fn image_metadata_spec(path: Seq<char>, mime: Seq<char>, bytes: nat) -> JsonSpec {
    JsonSpec::Object(
        Map::empty().insert("path"@, JsonSpec::Str(path)).insert(
            "mimeType"@,
            JsonSpec::Str(mime),
        ).insert("bytes"@, JsonSpec::Int(bytes as int)),
    )
}

/// The report on a written image.
pub fn image_metadata(path: &str, mime_type: &str, bytes: usize) -> (r: serde_json::Value)
    ensures
        json_model(r) == image_metadata_spec(path@, mime_type@, bytes as nat),
{
    let mut obj = json_object();
    json_set(&mut obj, "path", json_str(path));
    json_set(&mut obj, "mimeType", json_str(mime_type));
    json_set(&mut obj, "bytes", json_u64(bytes as u64));
    obj
}

/// The kind of a content item, or `unknown`.
pub open spec fn item_kind(item: JsonSpec) -> Seq<char> {
    match str_field(item, "type"@) {
        Some(t) => t,
        None => "unknown"@,
    }
}

/// The kinds of the items that are not text, in order.
pub open spec fn non_text_kinds(items: Seq<JsonSpec>) -> Seq<Seq<char>>
    decreases items.len(),
{
    if items.len() == 0 {
        Seq::empty()
    } else {
        let t = non_text_kinds(items.drop_last());
        if item_kind(items.last()) != "text"@ {
            t.push(item_kind(items.last()))
        } else {
            t
        }
    }
}

/// A text as one line: with a newline at its end, added if it has none.
pub open spec fn as_line(t: Seq<char>) -> Seq<char> {
    if t.len() > 0 && t.last() == '\n' {
        t
    } else {
        t.push('\n')
    }
}

/// The texts of text items, each as a line.
pub open spec fn text_lines(items: Seq<JsonSpec>) -> Result<Seq<char>, OutputFault>
    decreases items.len(),
{
    if items.len() == 0 {
        Ok(Seq::empty())
    } else {
        match text_lines(items.drop_last()) {
            Err(e) => Err(e),
            Ok(o) => match str_field(items.last(), "text"@) {
                None => Err(OutputErrorOf::TextWithoutValue),
                Some(t) => Ok(o + as_line(t)),
            },
        }
    }
}

/// The text of a tool result whose content is all text.
pub open spec fn text_spec(result: JsonSpec) -> Result<Seq<char>, OutputFault> {
    match array_field(result, "content"@) {
        None => Err(OutputErrorOf::NoContentArray),
        Some(items) => {
            let kinds = non_text_kinds(items);
            if kinds.len() > 0 {
                Err(OutputErrorOf::NonTextContent { kinds })
            } else {
                match text_lines(items) {
                    Err(e) => Err(e),
                    Ok(o) => if o.len() == 0 {
                        Err(OutputErrorOf::NoText)
                    } else {
                        Ok(o)
                    },
                }
            }
        },
    }
}

proof fn lemma_text_lines_err(items: Seq<JsonSpec>, i: int)
    requires
        0 <= i <= items.len(),
        text_lines(items.take(i)) is Err,
    ensures
        text_lines(items) == text_lines(items.take(i)),
    decreases items.len() - i,
{
    if i == items.len() {
        assert(items.take(i) =~= items);
    } else {
        assert(items.drop_last().take(i) =~= items.take(i));
        lemma_text_lines_err(items.drop_last(), i);
    }
}

/// The kinds of the items that are not text.
fn non_text_kinds_of(items: &Vec<serde_json::Value>) -> (r: Vec<String>)
    ensures
        texts(r@) == non_text_kinds(models(items@)),
{
    let ghost all = models(items@);
    let mut kinds: Vec<String> = Vec::new();
    let mut i: usize = 0;
    while i < items.len()
        invariant
            all == models(items@),
            i <= items@.len(),
            texts(kinds@) == non_text_kinds(all.take(i as int)),
        decreases items@.len() - i,
    {
        assert(all.take(i + 1).drop_last() =~= all.take(i as int));
        assert(all.take(i + 1).last() == json_model(items@[i as int]));
        let kind = match json_get(&items[i], "type") {
            Some(t) => match json_as_str(t) {
                Some(s) => s.to_owned(),
                None => "unknown".to_owned(),
            },
            None => "unknown".to_owned(),
        };
        if !str_eq(kind.as_str(), "text") {
            let ghost before = texts(kinds@);
            kinds.push(kind);
            assert(texts(kinds@) =~= before.push(item_kind(all[i as int])));
        }
        i = i + 1;
    }
    assert(all.take(all.len() as int) =~= all);
    kinds
}

/// The texts of text items, each as a line.
fn text_lines_of(items: &Vec<serde_json::Value>) -> (r: Result<String, OutputError>)
    ensures
        match (r, text_lines(models(items@))) {
            (Ok(t), Ok(s)) => t@ == s,
            (Err(e), Err(f)) => e@ == f,
            _ => false,
        },
{
    let ghost all = models(items@);
    let mut output = String::new();
    let mut k: usize = 0;
    assert(all.take(0) =~= Seq::<JsonSpec>::empty());
    while k < items.len()
        invariant
            all == models(items@),
            k <= items@.len(),
            text_lines(all.take(k as int)) == Ok::<Seq<char>, OutputFault>(output@),
        decreases items@.len() - k,
    {
        assert(all.take(k + 1).drop_last() =~= all.take(k as int));
        assert(all.take(k + 1).last() == json_model(items@[k as int]));
        let text = match json_get(&items[k], "text") {
            Some(t) => match json_as_str(t) {
                Some(s) => s,
                None => {
                    proof {
                        lemma_text_lines_err(all, k + 1);
                    }
                    return Err(OutputErrorOf::TextWithoutValue);
                },
            },
            None => {
                proof {
                    lemma_text_lines_err(all, k + 1);
                }
                return Err(OutputErrorOf::TextWithoutValue);
            },
        };
        let tc = chars_of(text);
        let ghost before = output@;
        output.append(text);
        if tc.len() == 0 || tc[tc.len() - 1] != '\n' {
            push_char(&mut output, '\n');
        }
        assert(output@ =~= before + as_line(text@));
        k = k + 1;
    }
    assert(all.take(all.len() as int) =~= all);
    Ok(output)
}

/// The text of a tool result, each text item as a line; an error when the result holds
/// content of other kinds, or no text.
pub fn extract_text(result: &serde_json::Value) -> (r: Result<String, OutputError>)
    ensures
        match (r, text_spec(json_model(*result))) {
            (Ok(t), Ok(s)) => t@ == s,
            (Err(e), Err(f)) => e@ == f,
            _ => false,
        },
{
    let items = match content_array(result) {
        Ok(items) => items,
        Err(e) => return Err(e),
    };
    let kinds = non_text_kinds_of(items);
    if kinds.len() > 0 {
        return Err(OutputErrorOf::NonTextContent { kinds });
    }
    let output = match text_lines_of(items) {
        Ok(o) => o,
        Err(e) => return Err(e),
    };
    if output.as_str().is_empty() {
        return Err(OutputErrorOf::NoText);
    }
    Ok(output)
}

// ---------------------------------------------------------------------------------------
// File names
// ---------------------------------------------------------------------------------------

/// The names of files, one per line.
pub open spec fn file_name_lines(files: Seq<JsonSpec>) -> Result<Seq<char>, OutputFault>
    decreases files.len(),
{
    if files.len() == 0 {
        Ok(Seq::empty())
    } else {
        match file_name_lines(files.drop_last()) {
            Err(e) => Err(e),
            Ok(o) => match str_field(files.last(), "name"@) {
                None => Err(OutputErrorOf::FileWithoutName),
                Some(n) => Ok(o + n.push('\n')),
            },
        }
    }
}

proof fn lemma_file_name_lines_err(files: Seq<JsonSpec>, i: int)
    requires
        0 <= i <= files.len(),
        file_name_lines(files.take(i)) is Err,
    ensures
        file_name_lines(files) == file_name_lines(files.take(i)),
    decreases files.len() - i,
{
    if i == files.len() {
        assert(files.take(i) =~= files);
    } else {
        assert(files.drop_last().take(i) =~= files.take(i));
        lemma_file_name_lines_err(files.drop_last(), i);
    }
}

/// The names of files, each on a line of its own.
pub fn render_file_names(files: &Vec<serde_json::Value>) -> (r: Result<String, OutputError>)
    ensures
        match (r, file_name_lines(models(files@))) {
            (Ok(t), Ok(s)) => t@ == s,
            (Err(e), Err(f)) => e@ == f,
            _ => false,
        },
{
    let ghost all = models(files@);
    let mut output = String::new();
    let mut k: usize = 0;
    assert(all.take(0) =~= Seq::<JsonSpec>::empty());
    while k < files.len()
        invariant
            all == models(files@),
            k <= files@.len(),
            file_name_lines(all.take(k as int)) == Ok::<Seq<char>, OutputFault>(output@),
        decreases files@.len() - k,
    {
        assert(all.take(k + 1).drop_last() =~= all.take(k as int));
        assert(all.take(k + 1).last() == json_model(files@[k as int]));
        let name = match json_get(&files[k], "name") {
            Some(t) => match json_as_str(t) {
                Some(s) => s,
                None => {
                    proof {
                        lemma_file_name_lines_err(all, k + 1);
                    }
                    return Err(OutputErrorOf::FileWithoutName);
                },
            },
            None => {
                proof {
                    lemma_file_name_lines_err(all, k + 1);
                }
                return Err(OutputErrorOf::FileWithoutName);
            },
        };
        output.append(name);
        push_char(&mut output, '\n');
        k = k + 1;
    }
    assert(all.take(all.len() as int) =~= all);
    Ok(output)
}

/// The `files` array of the first content text that reads as JSON with one.
pub open spec fn first_files_array(items: Seq<JsonSpec>) -> Option<Seq<JsonSpec>>
    decreases items.len(),
{
    if items.len() == 0 {
        None
    } else {
        match str_field(items[0], "text"@) {
            Some(t) => match json_read(t) {
                Ok(p) => match array_field(p, "files"@) {
                    Some(files) => Some(files),
                    None => first_files_array(items.drop_first()),
                },
                Err(_) => first_files_array(items.drop_first()),
            },
            None => first_files_array(items.drop_first()),
        }
    }
}

/// The file names of a `list_files` result, one per line: from its structured content, or
/// else from the first content text that lists files.
pub open spec fn file_names_spec(result: JsonSpec) -> Result<Seq<char>, OutputFault> {
    match field(result, "structuredContent"@) {
        Some(sc) if array_field(sc, "files"@) is Some => file_name_lines(
            array_field(sc, "files"@).unwrap(),
        ),
        _ => match array_field(result, "content"@) {
            None => Err(OutputErrorOf::NoContentArray),
            Some(items) => match first_files_array(items) {
                Some(files) => file_name_lines(files),
                None => Err(OutputErrorOf::NoFilesArray),
            },
        },
    }
}

/// The file names of a `list_files` result, one per line.
#[verifier::loop_isolation(false)]
pub fn file_names_text(result: &serde_json::Value) -> (r: Result<String, OutputError>)
    ensures
        match (r, file_names_spec(json_model(*result))) {
            (Ok(t), Ok(s)) => t@ == s,
            (Err(e), Err(f)) => e@ == f,
            _ => false,
        },
{
    match json_get(result, "structuredContent") {
        Some(sc) => match json_get(sc, "files") {
            Some(f) => match json_as_array(f) {
                Some(files) => return render_file_names(files),
                None => {},
            },
            None => {},
        },
        None => {},
    }
    let items = match content_array(result) {
        Ok(items) => items,
        Err(e) => return Err(e),
    };
    let ghost all = models(items@);
    let mut i: usize = 0;
    assert(all.skip(0) =~= all);
    while i < items.len()
        invariant
            i <= items@.len(),
            first_files_array(all) == first_files_array(all.skip(i as int)),
        decreases items@.len() - i,
    {
        let ghost rest = all.skip(i as int);
        assert(rest[0] == json_model(items@[i as int]));
        assert(rest.drop_first() =~= all.skip(i + 1));
        match json_get(&items[i], "text") {
            Some(t) => match json_as_str(t) {
                Some(text) => match json_parse(text) {
                    Ok(payload) => match json_get(&payload, "files") {
                        Some(f) => match json_as_array(f) {
                            Some(files) => return render_file_names(files),
                            None => {},
                        },
                        None => {},
                    },
                    Err(_) => {},
                },
                None => {},
            },
            None => {},
        }
        i = i + 1;
    }
    assert(all.skip(i as int) =~= Seq::<JsonSpec>::empty());
    Err(OutputErrorOf::NoFilesArray)
}

// ---------------------------------------------------------------------------------------
// Preparing output
// ---------------------------------------------------------------------------------------

/// What a tool result becomes for output.
#[derive(Debug)]
pub enum PreparedOutput {
    /// The result as JSON.
    Json(serde_json::Value),
    /// The text of the result.
    Text(String),
    /// The image of the result, to be written to a file.
    Image(ImageFile),
}

/// Prepares a tool result for output: its one image for a file when `output` is given, its
/// text with `text`, and otherwise the result itself. `text` and `output` exclude each
/// other.
pub fn prepare_tool_output(
    result: serde_json::Value,
    text: bool,
    output: Option<&str>,
    force: bool,
) -> (r: Result<PreparedOutput, OutputError>)
    ensures
        text && output is Some ==> (r matches Err(e) && e@ == OutputFault::TextAndOutput),
        !text && output is None ==> (r matches Ok(PreparedOutput::Json(v)) && json_model(v)
            == json_model(result)),
        !text && output is Some ==> match (r, image_plan(json_model(result), output.unwrap()@)) {
            (Ok(PreparedOutput::Image(f)), Ok((p, m, b))) => f.path@ == p && f.mime_type@ == m
                && f.bytes@ == b && f.force == force,
            (Err(e), Err(x)) => e@ == x,
            _ => false,
        },
        text && output is None ==> match (r, text_spec(json_model(result))) {
            (Ok(PreparedOutput::Text(t)), Ok(s)) => t@ == s,
            (Err(e), Err(f)) => e@ == f,
            _ => false,
        },
{
    if text && output.is_some() {
        return Err(OutputErrorOf::TextAndOutput);
    }
    match output {
        Some(path) => {
            return match plan_image(&result, path, force) {
                Ok(f) => Ok(PreparedOutput::Image(f)),
                Err(e) => Err(e),
            };
        },
        None => {},
    }
    if text {
        return match extract_text(&result) {
            Ok(t) => Ok(PreparedOutput::Text(t)),
            Err(e) => Err(e),
        };
    }
    Ok(PreparedOutput::Json(result))
}

} // verus!
