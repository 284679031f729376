//! Syntax trees as plain data, and their JSON node shape.

use vstd::prelude::*;
use vstd::string::*;
use vstd::utf8::*;

verus! {

/// One node of a parsed syntax tree: a kind tag, a byte range into the source
/// text, and the ordered children.
#[derive(Debug)]
pub struct SyntaxNode {
    pub kind: String,
    pub start_byte: usize,
    pub end_byte: usize,
    pub children: Vec<SyntaxNode>,
}

/// The output shape of one node. A node with children carries no text; a leaf
/// carries the text of its span unless the span is empty.
#[derive(Debug)]
pub struct JsonNode {
    pub kind: String,
    pub start_byte: usize,
    pub end_byte: usize,
    pub children: Option<Vec<JsonNode>>,
    pub text: Option<String>,
}

/// Mathematical model of a [`SyntaxNode`].
pub struct TreeModel {
    pub kind: Seq<char>,
    pub start_byte: int,
    pub end_byte: int,
    pub children: Seq<TreeModel>,
}

/// Mathematical model of a [`JsonNode`].
pub struct JsonModel {
    pub kind: Seq<char>,
    pub start_byte: int,
    pub end_byte: int,
    pub children: Option<Seq<JsonModel>>,
    pub text: Option<Seq<char>>,
}

/// The model of a syntax node: its fields, and the models of its children.
pub open spec fn tree_model(node: SyntaxNode) -> TreeModel
    decreases node,
{
    TreeModel {
        kind: node.kind@,
        start_byte: node.start_byte as int,
        end_byte: node.end_byte as int,
        children: Seq::new(
            node.children@.len(),
            |i: int|
                if 0 <= i < node.children@.len() {
                    tree_model(node.children@[i])
                } else {
                    arbitrary()
                },
        ),
    }
}

impl View for SyntaxNode {
    type V = TreeModel;

    open spec fn view(&self) -> TreeModel {
        tree_model(*self)
    }
}

/// The model of a JSON node: its fields, and the models of its children.
pub open spec fn json_model(node: JsonNode) -> JsonModel
    decreases node,
{
    JsonModel {
        kind: node.kind@,
        start_byte: node.start_byte as int,
        end_byte: node.end_byte as int,
        children: match node.children {
            Some(c) => Some(
                Seq::new(
                    c@.len(),
                    |i: int|
                        if 0 <= i < c@.len() {
                            json_model(c@[i])
                        } else {
                            arbitrary()
                        },
                ),
            ),
            None => None,
        },
        text: match node.text {
            Some(t) => Some(t@),
            None => None,
        },
    }
}

impl View for JsonNode {
    type V = JsonModel;

    open spec fn view(&self) -> JsonModel {
        json_model(*self)
    }
}

/// The text that the byte range `start..end` of `source` spells.
pub open spec fn span_text(source: Seq<char>, start: int, end: int) -> Seq<char> {
    decode_utf8(encode_utf8(source).subrange(start, end))
}

/// A tree fits a text with the UTF-8 encoding `bytes`: the byte range of
/// every node is ordered, ends inside the text, starts and ends between
/// characters, and lies inside the range of the node's parent.
pub open spec fn fits(bytes: Seq<u8>, tree: TreeModel) -> bool
    decreases tree,
{
    &&& 0 <= tree.start_byte <= tree.end_byte <= bytes.len()
    &&& is_char_boundary(bytes, tree.start_byte)
    &&& is_char_boundary(bytes, tree.end_byte)
    &&& forall|i: int|
        0 <= i < tree.children.len() ==> {
            &&& tree.start_byte <= (#[trigger] tree.children[i]).start_byte
            &&& tree.children[i].end_byte <= tree.end_byte
            &&& fits(bytes, tree.children[i])
        }
}

/// The JSON node that stands for `tree` over the text `source`.
pub open spec fn json_of(source: Seq<char>, tree: TreeModel) -> JsonModel
    decreases tree,
{
    JsonModel {
        kind: tree.kind,
        start_byte: tree.start_byte,
        end_byte: tree.end_byte,
        children: if tree.children.len() == 0 {
            None
        } else {
            Some(
                Seq::new(
                    tree.children.len(),
                    |i: int|
                        if 0 <= i < tree.children.len() {
                            json_of(source, tree.children[i])
                        } else {
                            arbitrary()
                        },
                ),
            )
        },
        text: if tree.children.len() == 0 && tree.start_byte < tree.end_byte {
            Some(span_text(source, tree.start_byte, tree.end_byte))
        } else {
            None
        },
    }
}

/// The node shape rule, at every node: children and text never stand
/// together, a list of children is never empty, a text is never empty, and a
/// node has neither only when it is a leaf with an empty span.
pub open spec fn json_shaped(node: JsonModel) -> bool
    decreases node,
{
    &&& match node.children {
        Some(c) => {
            &&& c.len() > 0
            &&& node.text is None
            &&& forall|i: int| 0 <= i < c.len() ==> json_shaped(#[trigger] c[i])
        },
        None => match node.text {
            Some(t) => t.len() > 0,
            None => node.start_byte == node.end_byte,
        },
    }
}

/// Every node lies inside a text of `len` bytes, and inside its parent.
pub open spec fn json_nested(len: int, node: JsonModel) -> bool
    decreases node,
{
    &&& 0 <= node.start_byte <= node.end_byte <= len
    &&& match node.children {
        Some(c) => forall|i: int|
            0 <= i < c.len() ==> {
                &&& node.start_byte <= (#[trigger] c[i]).start_byte
                &&& c[i].end_byte <= node.end_byte
                &&& json_nested(len, c[i])
            },
        None => true,
    }
}

/// A non-empty range of bytes between two character boundaries spells at
/// least one character.
pub proof fn lemma_span_text_nonempty(source: Seq<char>, start: int, end: int)
    requires
        0 <= start < end <= encode_utf8(source).len(),
        is_char_boundary(encode_utf8(source), start),
        is_char_boundary(encode_utf8(source), end),
    ensures
        span_text(source, start, end).len() > 0,
        encode_utf8(span_text(source, start, end)) == encode_utf8(source).subrange(start, end),
{
    let bytes = encode_utf8(source);
    encode_utf8_valid_utf8(source);
    valid_utf8_split(bytes, end);
    let head = bytes.subrange(0, end);
    lemma_boundary_in_prefix(bytes, start, end);
    valid_utf8_split(head, start);
    let mid = head.subrange(start, end);
    assert(mid =~= bytes.subrange(start, end));
    decode_utf8_encode_utf8(mid);
    if decode_utf8(mid).len() == 0 {
        assert(decode_utf8(mid) =~= Seq::<char>::empty());
        reveal_with_fuel(encode_utf8, 1);
        assert(encode_utf8(Seq::<char>::empty()).len() == 0);
    }
}

/// A character boundary of a text is one of each prefix that reaches it.
pub proof fn lemma_boundary_in_prefix(bytes: Seq<u8>, index: int, end: int)
    requires
        valid_utf8(bytes),
        0 <= index <= end <= bytes.len(),
        is_char_boundary(bytes, index),
        is_char_boundary(bytes, end),
    ensures
        is_char_boundary(bytes.subrange(0, end), index),
{
    valid_utf8_split(bytes, end);
    let head = bytes.subrange(0, end);
    if index < end {
        is_char_boundary_iff_not_is_continuation_byte(bytes, index);
        is_char_boundary_iff_not_is_continuation_byte(head, index);
    } else {
        is_char_boundary_start_end_of_seq(head);
    }
}

/// The node shape rule holds of the JSON node of every tree that fits its
/// text.
pub proof fn lemma_json_of_shaped(source: Seq<char>, tree: TreeModel)
    requires
        fits(encode_utf8(source), tree),
    ensures
        json_shaped(json_of(source, tree)),
    decreases tree,
{
    let node = json_of(source, tree);
    if tree.children.len() == 0 {
        if tree.start_byte < tree.end_byte {
            lemma_span_text_nonempty(source, tree.start_byte, tree.end_byte);
        }
    } else {
        let c = node.children.unwrap();
        assert forall|i: int| 0 <= i < c.len() implies json_shaped(#[trigger] c[i]) by {
            assert(fits(encode_utf8(source), tree.children[i]));
            lemma_json_of_shaped(source, tree.children[i]);
        }
    }
}

/// Byte offsets pass through unchanged: in the JSON form of a tree that fits
/// its text, every node lies inside the text and inside its parent.
pub proof fn lemma_json_of_nested(source: Seq<char>, tree: TreeModel)
    requires
        fits(encode_utf8(source), tree),
    ensures
        json_nested(encode_utf8(source).len() as int, json_of(source, tree)),
    decreases tree,
{
    let node = json_of(source, tree);
    if tree.children.len() > 0 {
        let c = node.children.unwrap();
        assert forall|i: int| 0 <= i < c.len() implies {
            &&& node.start_byte <= (#[trigger] c[i]).start_byte
            &&& c[i].end_byte <= node.end_byte
            &&& json_nested(encode_utf8(source).len() as int, c[i])
        } by {
            assert(fits(encode_utf8(source), tree.children[i]));
            lemma_json_of_nested(source, tree.children[i]);
        }
    }
}

/// Whether the tree fits `source`.
pub fn fits_text(source: &str, node: &SyntaxNode) -> (ok: bool)
    ensures
        ok == fits(encode_utf8(source@), node@),
    decreases node,
{
    if node.start_byte > node.end_byte || node.end_byte > source.as_bytes().len() {
        return false;
    }
    if !source.is_char_boundary(node.start_byte) || !source.is_char_boundary(node.end_byte) {
        return false;
    }
    let mut i: usize = 0;
    while i < node.children.len()
        invariant
            i <= node.children.len(),
            node@.children.len() == node.children.len(),
            forall|j: int|
                0 <= j < i ==> {
                    &&& node@.start_byte <= (#[trigger] node@.children[j]).start_byte
                    &&& node@.children[j].end_byte <= node@.end_byte
                    &&& fits(encode_utf8(source@), node@.children[j])
                },
        decreases node.children.len() - i,
    {
        let child = &node.children[i];
        assert(child@ == node@.children[i as int]);
        if child.start_byte < node.start_byte || child.end_byte > node.end_byte {
            return false;
        }
        if !fits_text(source, child) {
            return false;
        }
        i += 1;
    }
    true
}

/// The text of the byte range `start..end` of `source`.
fn span_of(source: &str, start: usize, end: usize) -> (text: String)
    requires
        start <= end <= encode_utf8(source@).len(),
        is_char_boundary(encode_utf8(source@), start as int),
        is_char_boundary(encode_utf8(source@), end as int),
    ensures
        text@ == span_text(source@, start as int, end as int),
{
    let ghost bytes = encode_utf8(source@);
    proof {
        encode_utf8_valid_utf8(source@);
        lemma_boundary_in_prefix(bytes, start as int, end as int);
    }
    let (head, _) = source.split_at(end);
    let (_, body) = head.split_at(start);
    proof {
        assert(encode_utf8(body@) =~= bytes.subrange(start as int, end as int));
        encode_utf8_decode_utf8(body@);
    }
    body.to_owned()
}

/// Converts a syntax tree into its JSON form over `source_code`. Byte offsets
/// and kinds are kept as they are; a leaf with a non-empty span carries the
/// text of that span, and no other node carries text.
pub fn node_to_json(source_code: &str, node: &SyntaxNode) -> (json: JsonNode)
    requires
        fits(encode_utf8(source_code@), node@),
    ensures
        json@ == json_of(source_code@, node@),
        json_shaped(json@),
        json_nested(encode_utf8(source_code@).len() as int, json@),
    decreases node,
{
    let mut children: Vec<JsonNode> = Vec::new();
    let mut i: usize = 0;
    while i < node.children.len()
        invariant
            i <= node.children.len(),
            node@.children.len() == node.children.len(),
            children@.len() == i,
            fits(encode_utf8(source_code@), node@),
            forall|j: int|
                0 <= j < i ==> (#[trigger] children@[j])@ == json_of(
                    source_code@,
                    node@.children[j],
                ),
        decreases node.children.len() - i,
    {
        assert(fits(encode_utf8(source_code@), node@.children[i as int]));
        let child = node_to_json(source_code, &node.children[i]);
        children.push(child);
        i += 1;
    }
    let leaf = children.is_empty();
    let text = if leaf && node.start_byte < node.end_byte {
        Some(span_of(source_code, node.start_byte, node.end_byte))
    } else {
        None
    };
    let json = JsonNode {
        kind: node.kind.clone(),
        start_byte: node.start_byte,
        end_byte: node.end_byte,
        children: if leaf {
            None
        } else {
            Some(children)
        },
        text,
    };
    proof {
        let want = json_of(source_code@, node@);
        if !leaf {
            assert(json@.children.unwrap() =~= want.children.unwrap());
        }
        lemma_json_of_shaped(source_code@, node@);
        lemma_json_of_nested(source_code@, node@);
    }
    json
}

} // verus!
