//! The names of vertex attributes.
//!
//! A name is put in lower case and cut at its first underscore; what stands
//! before the cut says which field of a vertex the attribute fills. Lower case
//! is what `str::to_lowercase` makes of a text: [`lowercased`] is the name of
//! its result, of which nothing more is stated here.

use crate::json::same_text;
use vstd::prelude::*;

verus! {

/// The field of a vertex that an attribute fills.
#[derive(Clone, Copy, Debug, PartialEq, Eq, Structural)]
pub enum Semantic {
    Position,
    Normal,
    TexCoord,
    /// No field: the attribute is passed over.
    Other,
}

/// What `str::to_lowercase` returns.
pub uninterp spec fn lowercased(text: Seq<char>) -> Seq<char>;

/// `str::to_lowercase`: the text in lower case, by the rules of Unicode, which
/// depend on nothing but the text.
#[verifier::external_body]
fn lowercase(text: &str) -> (r: String)
    ensures
        r@ == lowercased(text@),
{
    text.to_lowercase()
}

/// The place of the first underscore at or after `from`, or the length of the
/// text if there is none.
pub open spec fn underscore_from(text: Seq<char>, from: int) -> int
    decreases text.len() - from,
{
    if from < 0 || from >= text.len() {
        text.len() as int
    } else if text[from] == '_' {
        from
    } else {
        underscore_from(text, from + 1)
    }
}

/// What stands before the first underscore; all of the text if it has none.
pub open spec fn root_token(text: Seq<char>) -> Seq<char> {
    text.subrange(0, underscore_from(text, 0))
}

/// The field that a name in lower case stands for.
pub open spec fn semantic_of(lowered: Seq<char>) -> Semantic {
    let root = root_token(lowered);
    if root == "position"@ {
        Semantic::Position
    } else if root == "normal"@ {
        Semantic::Normal
    } else if root == "texcoord"@ {
        Semantic::TexCoord
    } else {
        Semantic::Other
    }
}

/// The field that the name of an attribute stands for.
pub open spec fn attribute_semantic(name: Seq<char>) -> Semantic {
    semantic_of(lowercased(name))
}

/// The field that a name in lower case stands for.
pub fn classify(lowered: &str) -> (r: Semantic)
    ensures
        r == semantic_of(lowered@),
{
    let len = lowered.unicode_len();
    let mut cut: usize = 0;
    while cut < len && lowered.get_char(cut) != '_'
        invariant
            cut <= len,
            len == lowered@.len(),
            underscore_from(lowered@, 0) == underscore_from(lowered@, cut as int),
        decreases len - cut,
    {
        cut += 1;
    }
    let root = lowered.substring_char(0, cut);
    if same_text(root, "position") {
        Semantic::Position
    } else if same_text(root, "normal") {
        Semantic::Normal
    } else if same_text(root, "texcoord") {
        Semantic::TexCoord
    } else {
        Semantic::Other
    }
}

/// The field that the name of an attribute stands for.
pub fn semantic_of_name(name: &str) -> (r: Semantic)
    ensures
        r == attribute_semantic(name@),
{
    let lowered = lowercase(name);
    classify(lowered.as_str())
}

} // verus!
