//! Preview classification: a path's content is shown as a directory tree,
//! an image, text, or a binary summary.
//!
//! The filesystem is probed by the embedding program; this module holds the
//! verified classification of what the probe found.

use vstd::prelude::*;
use vstd::utf8::decode_utf8;
use vstd::utf8::valid_utf8;

use crate::path::FsPath;

verus! {

/// What a preview holds once it is ready.
pub enum PreviewContent {
    Text { title: String, content: String },
    Binary { title: String, size: u64 },
    Image { title: String, width: u32, height: u32, color_type: String },
}

/// The preview pane's state.
pub enum PreviewState {
    Empty,
    Ready(PreviewContent),
    Loading { path: FsPath },
    Error { path: FsPath, message: String },
}

/// A source of previews.  The default loader probes the filesystem and
/// classifies with [`DefaultPreviewLoader`]; a test double may answer
/// from memory.
pub trait PreviewLoader {
    fn load(&self, path: &FsPath) -> Result<PreviewContent, String>;
}

/// One entry of a directory walk: its depth below the walked root
/// (immediate children have depth 1) and its bare name.
pub struct TreeItem {
    pub depth: usize,
    pub name: String,
}

/// The indentation for a tree entry: two spaces per level.
pub open spec fn indent_chars(level: nat) -> Seq<char>
    decreases level,
{
    if level == 0 {
        Seq::empty()
    } else {
        indent_chars((level - 1) as nat) + "  "@
    }
}

/// The rendered line for one tree entry.
pub open spec fn tree_line(t: TreeItem) -> Seq<char> {
    indent_chars(if t.depth == 0 { 0nat } else { (t.depth - 1) as nat }) + "|-- "@ + t.name@
        + "\n"@
}

/// The rendered tree listing: one line per entry, in walk order.
pub open spec fn tree_text(items: Seq<TreeItem>) -> Seq<char>
    decreases items.len(),
{
    if items.len() == 0 {
        Seq::empty()
    } else {
        tree_text(items.drop_last()) + tree_line(items.last())
    }
}

/// Renders a directory walk as an indented tree listing.
pub fn render_tree(items: &Vec<TreeItem>) -> (r: String)
    ensures
        r@ == tree_text(items@),
{
    let mut s = String::new();
    proof {
        assert(s@ =~= tree_text(items@.take(0)));
    }
    let mut i: usize = 0;
    while i < items.len()
        invariant
            i <= items.len(),
            s@ == tree_text(items@.take(i as int)),
        decreases items.len() - i,
    {
        let level = if items[i].depth == 0 {
            0
        } else {
            items[i].depth - 1
        };
        let mut k: usize = 0;
        proof {
            assert(s@ + indent_chars(0) =~= s@);
        }
        while k < level
            invariant
                k <= level,
                s@ == tree_text(items@.take(i as int)) + indent_chars(k as nat),
            decreases level - k,
        {
            s.append("  ");
            k += 1;
        }
        s.append("|-- ");
        s.append(items[i].name.as_str());
        s.append("\n");
        proof {
            let prefix = items@.take(i as int);
            assert(items@.take(i + 1).drop_last() =~= prefix);
            assert(items@.take(i + 1).last() == items@[i as int]);
            assert(s@ =~= tree_text(prefix) + tree_line(items@[i as int]));
            assert(s@ == tree_text(items@.take(i + 1)));
        }
        i += 1;
    }
    proof {
        assert(items@.take(items@.len() as int) =~= items@);
    }
    s
}

/// The Unicode scalar of a character, with an ASCII capital letter
/// lowered to its small form.
pub open spec fn lower_code(c: char) -> u32 {
    if 'A' as u32 <= c as u32 && c as u32 <= 'Z' as u32 {
        (c as u32 + 32) as u32
    } else {
        c as u32
    }
}

/// Whether two character sequences agree up to ASCII case.
pub open spec fn matches_ci(s: Seq<char>, lit: Seq<char>) -> bool {
    s.len() == lit.len() && forall|k: int| 0 <= k < s.len() ==> lower_code(s[k]) == lower_code(
        lit[k],
    )
}

/// Whether an extension names a known image type.
pub open spec fn image_ext(e: Seq<char>) -> bool {
    ||| matches_ci(e, "png"@)
    ||| matches_ci(e, "jpg"@)
    ||| matches_ci(e, "jpeg"@)
    ||| matches_ci(e, "gif"@)
    ||| matches_ci(e, "bmp"@)
    ||| matches_ci(e, "webp"@)
    ||| matches_ci(e, "ico"@)
    ||| matches_ci(e, "tiff"@)
}

/// The position of the last `.` in a name, if any.
pub open spec fn last_dot(s: Seq<char>) -> Option<int>
    decreases s.len(),
{
    if s.len() == 0 {
        None
    } else if s.last() == '.' {
        Some(s.len() - 1)
    } else {
        last_dot(s.drop_last())
    }
}

/// The extension of a name: what follows the last `.`, provided that dot
/// is not the name's first character.
pub open spec fn ext_of(s: Seq<char>) -> Option<Seq<char>> {
    match last_dot(s) {
        None => None,
        Some(i) => if i > 0 {
            Some(s.skip(i + 1))
        } else {
            None
        },
    }
}

/// Whether a file name carries a known image extension.
pub open spec fn has_image_ext(name: Seq<char>) -> bool {
    ext_of(name) matches Some(e) && image_ext(e)
}

/// Finds the position of the last `.` in a name.
fn find_last_dot(s: &str) -> (r: Option<usize>)
    ensures
        match r {
            None => last_dot(s@) is None,
            Some(i) => i < s@.len() && last_dot(s@) == Some(i as int),
        },
{
    let mut i = s.unicode_len();
    proof {
        assert(s@.take(i as int) =~= s@);
    }
    while i > 0
        invariant
            i <= s@.len(),
            last_dot(s@) == last_dot(s@.take(i as int)),
        decreases i,
    {
        let c = s.get_char(i - 1);
        proof {
            assert(s@.take(i as int).last() == s@[i - 1]);
            assert(s@.take(i as int).drop_last() =~= s@.take(i - 1));
        }
        if c == '.' {
            return Some(i - 1);
        }
        i -= 1;
    }
    proof {
        assert(s@.take(0) =~= Seq::<char>::empty());
    }
    None
}

/// Compares a name against a pattern up to ASCII case.
fn eq_ci(s: &str, lit: &str) -> (r: bool)
    ensures
        r == matches_ci(s@, lit@),
{
    let n = s.unicode_len();
    if n != lit.unicode_len() {
        return false;
    }
    let mut k: usize = 0;
    while k < n
        invariant
            k <= n,
            n == s@.len(),
            n == lit@.len(),
            forall|j: int| 0 <= j < k ==> lower_code(s@[j]) == lower_code(lit@[j]),
        decreases n - k,
    {
        let a = s.get_char(k) as u32;
        let a = if a >= 'A' as u32 && a <= 'Z' as u32 {
            a + 32
        } else {
            a
        };
        let b = lit.get_char(k) as u32;
        let b = if b >= 'A' as u32 && b <= 'Z' as u32 {
            b + 32
        } else {
            b
        };
        if a != b {
            return false;
        }
        k += 1;
    }
    true
}

/// Decides whether an extension names a known image type.
fn is_image_ext(e: &str) -> (r: bool)
    ensures
        r == image_ext(e@),
{
    eq_ci(e, "png") || eq_ci(e, "jpg") || eq_ci(e, "jpeg") || eq_ci(e, "gif") || eq_ci(e, "bmp")
        || eq_ci(e, "webp") || eq_ci(e, "ico") || eq_ci(e, "tiff")
}

/// Decides whether a file name carries a known image extension.
pub fn name_has_image_ext(name: &str) -> (r: bool)
    ensures
        r == has_image_ext(name@),
{
    match find_last_dot(name) {
        None => false,
        Some(i) => {
            if i == 0 {
                false
            } else {
                let n = name.unicode_len();
                let e = name.substring_char(i + 1, n);
                proof {
                    assert(e@ =~= name@.skip(i + 1));
                }
                is_image_ext(e)
            }
        },
    }
}

/// Relies on image's `ImageReader`: `with_guessed_format` sniffs the format
/// from the leading bytes and `into_dimensions` decodes the header.  Both
/// steps also consult image's process-global, runtime-mutable hook
/// registries, so the outcome is not a function of the bytes alone and
/// nothing is promised of it; [`DefaultPreviewLoader::classify_probed`]
/// fixes the classification for every value this could return.
#[verifier::external_body]
fn probe_image_dims(bytes: &Vec<u8>) -> Option<(u32, u32)> {
    let reader = image::ImageReader::new(std::io::Cursor::new(bytes.as_slice()));
    match reader.with_guessed_format() {
        Ok(rd) => rd.into_dimensions().ok(),
        Err(_) => Option::None,
    }
}

/// Relies on `String::from_utf8`: it succeeds exactly on valid UTF-8 and
/// returns the bytes' decoding.
#[verifier::external_body]
fn decode_text(bytes: Vec<u8>) -> (r: Option<String>)
    ensures
        r is Some <==> valid_utf8(bytes@),
        r matches Some(s) ==> s@ == decode_utf8(bytes@),
{
    String::from_utf8(bytes).ok()
}

/// The verified classification engine behind the default preview loader.
pub struct DefaultPreviewLoader;

impl DefaultPreviewLoader {
    /// Classifies a directory from the items of its walk: an indented
    /// tree listing, titled with the directory's name.
    pub fn classify_dir(&self, name: String, items: Vec<TreeItem>) -> (r: PreviewContent)
        ensures
            (r matches PreviewContent::Text { title, content } && title@ == name@ && content@
                == tree_text(items@)),
    {
        let content = render_tree(&items);
        PreviewContent::Text { title: name, content }
    }

    /// Classifies a file from its bytes and the reported outcome of an
    /// image probe on them, in order: reported dimensions win; then a
    /// known image extension (dimensions unavailable); then decodable
    /// non-empty text; what remains, an empty file included, is binary.
    pub fn classify_probed(
        &self,
        name: String,
        bytes: Vec<u8>,
        dims: Option<(u32, u32)>,
    ) -> (r: PreviewContent)
        ensures
            dims matches Some(d) ==> (r matches PreviewContent::Image {
                title,
                width,
                height,
                color_type,
            } && title@ == name@ && width == d.0 && height == d.1 && color_type@ == "Unknown"@),
            dims is None && has_image_ext(name@) ==> (r matches PreviewContent::Image {
                title,
                width,
                height,
                color_type,
            } && title@ == name@ && width == 0 && height == 0 && color_type@
                == "Unknown (Metadata Load Failed)"@),
            dims is None && !has_image_ext(name@) && valid_utf8(bytes@) && bytes@.len() > 0
                ==> (r matches PreviewContent::Text { title, content } && title@ == name@
                && content@ == decode_utf8(bytes@)),
            dims is None && !has_image_ext(name@) && !(valid_utf8(bytes@) && bytes@.len() > 0)
                ==> (r matches PreviewContent::Binary { title, size } && title@ == name@ && size
                == bytes@.len()),
    {
        match dims {
            Some(d) => PreviewContent::Image {
                title: name,
                width: d.0,
                height: d.1,
                color_type: String::from_str("Unknown"),
            },
            None => {
                if name_has_image_ext(name.as_str()) {
                    PreviewContent::Image {
                        title: name,
                        width: 0,
                        height: 0,
                        color_type: String::from_str("Unknown (Metadata Load Failed)"),
                    }
                } else {
                    let n = bytes.len();
                    match decode_text(bytes) {
                        Some(content) => {
                            if n > 0 {
                                PreviewContent::Text { title: name, content }
                            } else {
                                PreviewContent::Binary { title: name, size: n as u64 }
                            }
                        },
                        None => PreviewContent::Binary { title: name, size: n as u64 },
                    }
                }
            },
        }
    }

    /// Classifies a file from its bytes: probes them as an image, then
    /// classifies with [`Self::classify_probed`].  What the probe reports
    /// for non-empty bytes is not pinned, so for those this promises what
    /// holds whichever way it answered; an empty file is never probed
    /// (there is nothing to sniff), so its classification is fixed.
    pub fn classify_file(&self, name: String, bytes: Vec<u8>) -> (r: PreviewContent)
        ensures
            has_image_ext(name@) ==> (r matches PreviewContent::Image { title, .. } && title@
                == name@),
            !has_image_ext(name@) ==> {
                ||| (r matches PreviewContent::Image { title, color_type, .. } && title@ == name@
                    && color_type@ == "Unknown"@ && bytes@.len() > 0)
                ||| (valid_utf8(bytes@) && bytes@.len() > 0 && (r matches PreviewContent::Text {
                    title,
                    content,
                } && title@ == name@ && content@ == decode_utf8(bytes@)))
                ||| (!(valid_utf8(bytes@) && bytes@.len() > 0) && (r
                    matches PreviewContent::Binary { title, size } && title@ == name@ && size
                    == bytes@.len()))
            },
            bytes@.len() == 0 && !has_image_ext(name@) ==> (r matches PreviewContent::Binary {
                title,
                size,
            } && title@ == name@ && size == 0),
            bytes@.len() == 0 && has_image_ext(name@) ==> (r matches PreviewContent::Image {
                title,
                width,
                height,
                color_type,
            } && title@ == name@ && width == 0 && height == 0 && color_type@
                == "Unknown (Metadata Load Failed)"@),
    {
        let dims = if bytes.len() == 0 {
            None
        } else {
            probe_image_dims(&bytes)
        };
        self.classify_probed(name, bytes, dims)
    }
}

} // verus!
