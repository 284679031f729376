//! From the text of a file to its output document: parse, convert, wrap,
//! render and cut.

use crate::encoding::Encoding;
use crate::error::{serialization_error, AstgenError};
use crate::json::{fits, fits_text, json_nested, json_of, json_shaped, node_to_json};
use crate::json::{JsonModel, JsonNode, SyntaxNode, TreeModel};
use vstd::prelude::*;
use vstd::string::*;
use vstd::utf8::*;

verus! {

/// The byte `}`.
pub const CLOSE_BRACE: u8 = 125;

/// The largest character boundary of `bytes` that is not behind `limit`.
pub open spec fn floor_boundary(bytes: Seq<u8>, limit: int) -> int
    decreases limit,
{
    if limit <= 0 {
        0
    } else if is_char_boundary(bytes, limit) {
        limit
    } else {
        floor_boundary(bytes, limit - 1)
    }
}

/// The offset of the last `}` among the first `end` bytes, or -1 if there is
/// none.
pub open spec fn last_brace(bytes: Seq<u8>, end: int) -> int
    decreases end,
{
    if end <= 0 {
        -1
    } else if bytes[end - 1] == CLOSE_BRACE {
        end - 1
    } else {
        last_brace(bytes, end - 1)
    }
}

/// How many bytes of a rendered document are kept under a length limit. A
/// document within the limit is kept whole. A longer one is cut at the limit
/// (at the character boundary before it, should the limit fall inside a
/// character), and then behind the last `}` of what is left, if there is
/// one.
pub open spec fn truncated_len(bytes: Seq<u8>, limit: int) -> int {
    if bytes.len() <= limit {
        bytes.len() as int
    } else {
        let cut = floor_boundary(bytes, limit);
        let brace = last_brace(bytes, cut);
        if brace >= 0 {
            brace + 1
        } else {
            cut
        }
    }
}

/// What `last_brace` finds: a `}` with none behind it before `end`.
pub proof fn lemma_last_brace(bytes: Seq<u8>, end: int)
    requires
        0 <= end <= bytes.len(),
    ensures
        -1 <= last_brace(bytes, end) < end,
        last_brace(bytes, end) >= 0 ==> bytes[last_brace(bytes, end)] == CLOSE_BRACE,
        forall|j: int| last_brace(bytes, end) < j < end ==> bytes[j] != CLOSE_BRACE,
    decreases end,
{
    if end > 0 && bytes[end - 1] != CLOSE_BRACE {
        lemma_last_brace(bytes, end - 1);
    }
}

/// What `floor_boundary` finds: a boundary at or before the limit.
pub proof fn lemma_floor_boundary(bytes: Seq<u8>, limit: int)
    requires
        valid_utf8(bytes),
        0 <= limit,
    ensures
        0 <= floor_boundary(bytes, limit) <= limit,
        is_char_boundary(bytes, floor_boundary(bytes, limit)),
    decreases limit,
{
    if limit > 0 && !is_char_boundary(bytes, limit) {
        lemma_floor_boundary(bytes, limit - 1);
    }
}

/// The place behind an ASCII byte is a character boundary.
pub proof fn lemma_boundary_after_ascii(bytes: Seq<u8>, k: int)
    requires
        valid_utf8(bytes),
        0 <= k < bytes.len(),
        bytes[k] < 128,
    ensures
        is_char_boundary(bytes, k + 1),
    decreases bytes.len(),
{
    reveal_with_fuel(is_char_boundary, 2);
    reveal_with_fuel(valid_utf8, 2);
    let l = length_of_first_scalar(bytes);
    let rest = pop_first_scalar(bytes);
    if k == 0 {
        assert(l == 1);
    } else {
        is_char_boundary_iff_not_is_continuation_byte(bytes, k);
        assert(is_char_boundary(rest, k - l));
        assert(k >= l);
        lemma_boundary_after_ascii(rest, k - l);
    }
}

/// The truncation law: a cut document is a prefix of the whole one, is no
/// longer than the limit, and ends behind the last `}` that stands within
/// the limit whenever there is one.
pub proof fn lemma_truncated_len(bytes: Seq<u8>, limit: int)
    requires
        valid_utf8(bytes),
        0 <= limit,
    ensures
        0 <= truncated_len(bytes, limit) <= bytes.len(),
        bytes.len() > limit ==> truncated_len(bytes, limit) <= limit,
        is_char_boundary(bytes, truncated_len(bytes, limit)),
        bytes.len() > limit && last_brace(bytes, floor_boundary(bytes, limit)) >= 0 ==> bytes[truncated_len(
            bytes,
            limit,
        ) - 1] == CLOSE_BRACE,
{
    if bytes.len() <= limit {
        is_char_boundary_start_end_of_seq(bytes);
    } else {
        lemma_floor_boundary(bytes, limit);
        let cut = floor_boundary(bytes, limit);
        lemma_last_brace(bytes, cut);
        let brace = last_brace(bytes, cut);
        if brace >= 0 {
            lemma_boundary_after_ascii(bytes, brace);
        }
    }
}

/// Cuts a rendered document to at most `limit` bytes, as `truncated_len`
/// says. The result is a preview and need not be a whole JSON value.
pub fn truncate_output(full: &str, limit: usize) -> (cut: String)
    ensures
        encode_utf8(cut@) == encode_utf8(full@).subrange(
            0,
            truncated_len(encode_utf8(full@), limit as int),
        ),
{
    let bytes = full.as_bytes();
    let total = bytes.len();
    proof {
        encode_utf8_valid_utf8(full@);
        lemma_truncated_len(bytes@, limit as int);
    }
    if total <= limit {
        assert(bytes@.subrange(0, total as int) =~= bytes@);
        return full.to_owned();
    }
    let mut at: usize = limit;
    while at > 0 && !full.is_char_boundary(at)
        invariant
            at <= limit < total,
            total == bytes@.len(),
            bytes@ == encode_utf8(full@),
            floor_boundary(bytes@, limit as int) == floor_boundary(bytes@, at as int),
        decreases at,
    {
        at -= 1;
    }
    let mut end: usize = at;
    while end > 0 && bytes[end - 1] != CLOSE_BRACE
        invariant
            end <= at <= limit < total,
            total == bytes@.len(),
            last_brace(bytes@, at as int) == last_brace(bytes@, end as int),
        decreases end,
    {
        end -= 1;
    }
    let keep = if end > 0 {
        end
    } else {
        at
    };
    assert(keep == truncated_len(bytes@, limit as int));
    let (head, _) = full.split_at(keep);
    head.to_owned()
}

/// `tree_sitter::Parser`, held as an opaque value.
#[verifier::external_type_specification]
#[verifier::external_body]
pub struct ExParser(tree_sitter::Parser);

/// `tree_sitter::Tree`, a parsed tree, held as an opaque value.
#[verifier::external_type_specification]
#[verifier::external_body]
pub struct ExTree(tree_sitter::Tree);

/// `tree_sitter::Node`, a node of a parsed tree, held as an opaque value.
#[verifier::external_type_specification]
#[verifier::external_body]
pub struct ExNode<'tree>(tree_sitter::Node<'tree>);

/// Whether a parser is as `Parser::new` made it, but for a grammar set on
/// it: it parses all of a text, and no interrupted parse waits in it to be
/// taken up again.
pub uninterp spec fn parser_default(parser: tree_sitter::Parser) -> bool;

/// The grammar that is set on a parser (`Parser::language` tells it).
pub uninterp spec fn parser_grammar(parser: tree_sitter::Parser) -> Option<tree_sitter::Language>;

/// The refusal that `Parser::set_language` answers a grammar with: one that
/// was generated for an incompatible version of the library is refused, and
/// nothing but the grammar decides that. `None` for a grammar that is taken.
pub uninterp spec fn grammar_refusal(language: tree_sitter::Language) -> Option<
    tree_sitter::LanguageError,
>;

/// Whether tree-sitter's parsers take the grammar.
pub open spec fn grammar_accepted(language: tree_sitter::Language) -> bool {
    grammar_refusal(language) is None
}

/// The tree that a parser in its default state gives for a whole text
/// under a grammar, or `None` where it gives no tree.
pub uninterp spec fn parsed_tree(language: tree_sitter::Language, text: Seq<char>) -> Option<
    TreeModel,
>;

/// Calls `tree_sitter::Parser::new`: a parser in its default state, without
/// a grammar.
#[verifier::external_body]
pub(crate) fn new_parser() -> (parser: tree_sitter::Parser)
    ensures
        parser_default(parser),
        parser_grammar(parser) is None,
{
    tree_sitter::Parser::new()
}

/// Calls `tree_sitter::Parser::set_language`. The contract claims that the
/// grammar alone decides whether it is taken and with which refusal it is
/// not, that a grammar that is taken
/// is then the parser's grammar, that a refusal leaves the parser's grammar
/// as it was, and that a parser in its default state stays in it.
#[verifier::external_body]
pub(crate) fn parser_set_language(
    parser: &mut tree_sitter::Parser,
    language: &tree_sitter::Language,
) -> (set: Result<(), tree_sitter::LanguageError>)
    ensures
        set.is_ok() == grammar_accepted(*language),
        set matches Err(refusal) ==> grammar_refusal(*language) == Some(refusal),
        set.is_ok() ==> parser_grammar(*final(parser)) == Some(*language),
        set.is_err() ==> parser_grammar(*final(parser)) == parser_grammar(*old(parser)),
        parser_default(*old(parser)) ==> parser_default(*final(parser)),
{
    parser.set_language(language)
}

/// Calls `tree_sitter::Parser::parse` on the whole text, without an old
/// tree. The contract claims that parsing changes neither the parser's
/// grammar nor its default state, that a parser without grammar gives no
/// tree, and that a parser in its default state answers by its grammar and
/// the text alone; it gives that answer its name and claims nothing of what
/// the tree holds.
#[verifier::external_body]
pub(crate) fn parser_parse(parser: &mut tree_sitter::Parser, text: &str) -> (tree: Option<
    tree_sitter::Tree,
>)
    ensures
        parser_grammar(*final(parser)) == parser_grammar(*old(parser)),
        parser_default(*old(parser)) ==> parser_default(*final(parser)),
        tree is Some ==> parser_grammar(*old(parser)) is Some,
        parser_default(*old(parser)) && parser_grammar(*old(parser)) is Some ==> parsed_tree(
            parser_grammar(*old(parser)).unwrap(),
            text@,
        ) == tree_models(tree),
{
    parser.parse(text, None)
}

/// What a parsed tree holds: the tree below its root node.
pub uninterp spec fn tree_content(tree: tree_sitter::Tree) -> TreeModel;

/// What stands below a node of a parsed tree: its kind, its byte range and
/// its children, as the node's accessors give them.
pub uninterp spec fn node_tree(node: tree_sitter::Node) -> TreeModel;

/// Calls `tree_sitter::Tree::root_node`: the node below which the whole tree
/// stands.
#[verifier::external_body]
fn tree_root<'t>(tree: &'t tree_sitter::Tree) -> (root: tree_sitter::Node<'t>)
    ensures
        node_tree(root) == tree_content(*tree),
{
    tree.root_node()
}

/// Calls `tree_sitter::Node::kind`: the node's kind.
#[verifier::external_body]
fn node_kind<'t>(node: &tree_sitter::Node<'t>) -> (kind: &'t str)
    ensures
        kind@ == node_tree(*node).kind,
{
    node.kind()
}

/// Calls `tree_sitter::Node::start_byte`: the byte offset at which the node
/// starts.
#[verifier::external_body]
fn node_start_byte(node: &tree_sitter::Node) -> (start: usize)
    ensures
        start == node_tree(*node).start_byte,
{
    node.start_byte()
}

/// Calls `tree_sitter::Node::end_byte`: the byte offset at which the node
/// ends.
#[verifier::external_body]
fn node_end_byte(node: &tree_sitter::Node) -> (end: usize)
    ensures
        end == node_tree(*node).end_byte,
{
    node.end_byte()
}

/// Calls `tree_sitter::Node::child_count`: the number of the node's
/// children.
#[verifier::external_body]
fn node_child_count(node: &tree_sitter::Node) -> (count: u32)
    ensures
        count == node_tree(*node).children.len(),
{
    node.child_count()
}

/// Calls `tree_sitter::Node::child`: the child at an index below the number
/// of children is there, and is the child at that place.
#[verifier::external_body]
fn node_child<'t>(node: &tree_sitter::Node<'t>, index: u32) -> (child: Option<
    tree_sitter::Node<'t>,
>)
    ensures
        index < node_tree(*node).children.len() ==> child is Some,
        child matches Some(c) ==> index < node_tree(*node).children.len() && node_tree(c)
            == node_tree(*node).children[index as int],
{
    node.child(index)
}

/// Copies a node of a parsed tree, with everything below it, into plain
/// data.
pub fn lift_node(node: tree_sitter::Node) -> (lifted: SyntaxNode)
    ensures
        lifted@ == node_tree(node),
    decreases node_tree(node),
{
    let count = node_child_count(&node);
    let mut children: Vec<SyntaxNode> = Vec::new();
    let mut index: u32 = 0;
    while index < count
        invariant
            index <= count,
            count == node_tree(node).children.len(),
            children@.len() == index,
            forall|j: int|
                0 <= j < index ==> (#[trigger] children@[j])@ == node_tree(node).children[j],
        decreases count - index,
    {
        if let Some(child) = node_child(&node, index) {
            children.push(lift_node(child));
        }
        index += 1;
    }
    let lifted = SyntaxNode {
        kind: node_kind(&node).to_owned(),
        start_byte: node_start_byte(&node),
        end_byte: node_end_byte(&node),
        children,
    };
    assert(lifted@.children =~= node_tree(node).children);
    lifted
}

/// Copies a parsed tree into plain data.
pub fn lift_tree(tree: &tree_sitter::Tree) -> (lifted: SyntaxNode)
    ensures
        lifted@ == tree_content(*tree),
{
    lift_node(tree_root(tree))
}

/// The model of a tree that may be absent.
pub open spec fn tree_models(tree: Option<tree_sitter::Tree>) -> Option<TreeModel> {
    match tree {
        Some(t) => Some(tree_content(t)),
        None => None,
    }
}

/// Copies a tree that may be absent into plain data.
pub fn lift_parsed(tree: Option<tree_sitter::Tree>) -> (lifted: Option<SyntaxNode>)
    ensures
        lifted.is_some() == tree.is_some(),
        lifted matches Some(l) ==> l@ == tree_content(tree.unwrap()),
{
    match tree {
        Some(t) => Some(lift_tree(&t)),
        None => None,
    }
}

/// The error for a text that gave no usable tree.
pub open spec fn no_tree_message() -> Seq<char> {
    "Failed to parse content"@
}

/// What becomes of a parse: a tree that fits the text is converted; no
/// tree, or one that does not fit the text, is a parse error.
pub fn json_from_parse(content: &str, parsed: Option<SyntaxNode>) -> (json: Result<
    JsonNode,
    AstgenError,
>)
    ensures
        match parsed {
            Some(tree) if fits(encode_utf8(content@), tree@) => json matches Ok(node)
                && node@ == json_of(content@, tree@) && json_shaped(node@) && json_nested(
                encode_utf8(content@).len() as int,
                node@,
            ),
            _ => json matches Err(AstgenError::ParseError(msg)) && msg@ == no_tree_message(),
        },
{
    match parsed {
        Some(tree) => {
            if fits_text(content, &tree) {
                Ok(node_to_json(content, &tree))
            } else {
                Err(AstgenError::ParseError(String::from_str("Failed to parse content")))
            }
        },
        None => Err(AstgenError::ParseError(String::from_str("Failed to parse content"))),
    }
}

/// The tree of a text under a grammar, if the grammar is accepted, the
/// parser gives a tree, and the tree fits the text.
pub open spec fn usable_tree(language: tree_sitter::Language, content: Seq<char>) -> Option<
    TreeModel,
> {
    if !grammar_accepted(language) {
        None
    } else {
        match parsed_tree(language, content) {
            Some(tree) => if fits(encode_utf8(content), tree) {
                Some(tree)
            } else {
                None
            },
            None => None,
        }
    }
}

/// Parses `content` with a new parser for the grammar and converts the
/// tree. A grammar that the parser refuses is a grammar error; no tree, or
/// a tree that does not fit the text, is a parse error; every other text
/// gives the JSON form of its tree.
pub fn build_parse_tree_safe(content: &str, lang: &tree_sitter::Language) -> (json: Result<
    JsonNode,
    AstgenError,
>)
    ensures
        match json {
            Ok(node) => usable_tree(*lang, content@) matches Some(tree) && node@ == json_of(
                content@,
                tree,
            ) && json_shaped(node@) && json_nested(encode_utf8(content@).len() as int, node@),
            Err(AstgenError::TreeSitterError(refusal)) => grammar_refusal(*lang) == Some(refusal),
            Err(AstgenError::ParseError(msg)) => grammar_accepted(*lang) && usable_tree(
                *lang,
                content@,
            ) is None && msg@ == no_tree_message(),
            Err(_) => false,
        },
{
    let mut parser = new_parser();
    match parser_set_language(&mut parser, lang) {
        Err(e) => Err(AstgenError::TreeSitterError(e)),
        Ok(()) => {
            let parsed = lift_parsed(parser_parse(&mut parser, content));
            json_from_parse(content, parsed)
        },
    }
}

/// A JSON value as plain data. The entries of an object keep the order in
/// which they are listed.
#[derive(Debug)]
pub enum JsonDoc {
    Null,
    Number(usize),
    Text(String),
    Array(Vec<JsonDoc>),
    Object(Vec<JsonField>),
}

/// One entry of a JSON object.
#[derive(Debug)]
pub struct JsonField {
    pub name: String,
    pub value: JsonDoc,
}

/// Mathematical model of a [`JsonDoc`].
pub enum JsonValue {
    Null,
    Number(nat),
    Text(Seq<char>),
    Array(Seq<JsonValue>),
    Object(Seq<(Seq<char>, JsonValue)>),
}

/// The model of a JSON value.
pub open spec fn doc_model(doc: JsonDoc) -> JsonValue
    decreases doc,
{
    match doc {
        JsonDoc::Null => JsonValue::Null,
        JsonDoc::Number(n) => JsonValue::Number(n as nat),
        JsonDoc::Text(t) => JsonValue::Text(t@),
        JsonDoc::Array(items) => JsonValue::Array(
            Seq::new(
                items@.len(),
                |i: int|
                    if 0 <= i < items@.len() {
                        doc_model(items@[i])
                    } else {
                        arbitrary()
                    },
            ),
        ),
        JsonDoc::Object(fields) => JsonValue::Object(
            Seq::new(
                fields@.len(),
                |i: int|
                    if 0 <= i < fields@.len() {
                        (fields@[i].name@, doc_model(fields@[i].value))
                    } else {
                        arbitrary()
                    },
            ),
        ),
    }
}

impl View for JsonDoc {
    type V = JsonValue;

    open spec fn view(&self) -> JsonValue {
        doc_model(*self)
    }
}

/// The JSON object of one node: kind, byte range, children and text, where
/// an absent list of children and an absent text are written as null.
pub open spec fn node_value(node: JsonModel) -> JsonValue
    decreases node,
{
    JsonValue::Object(
        seq![
            ("kind"@, JsonValue::Text(node.kind)),
            ("start_byte"@, JsonValue::Number(node.start_byte as nat)),
            ("end_byte"@, JsonValue::Number(node.end_byte as nat)),
            (
                "children"@,
                match node.children {
                    Some(c) => JsonValue::Array(
                        Seq::new(
                            c.len(),
                            |i: int|
                                if 0 <= i < c.len() {
                                    node_value(c[i])
                                } else {
                                    arbitrary()
                                },
                        ),
                    ),
                    None => JsonValue::Null,
                },
            ),
            (
                "text"@,
                match node.text {
                    Some(t) => JsonValue::Text(t),
                    None => JsonValue::Null,
                },
            ),
        ],
    )
}

/// The output document of one file: the format tag, the file name, the
/// display name of the language, and the tree.
pub open spec fn document_value(filename: Seq<char>, language: Seq<char>, ast: JsonModel) -> JsonValue {
    JsonValue::Object(
        seq![
            ("version"@, JsonValue::Text("astgen-0.1"@)),
            ("filename"@, JsonValue::Text(filename)),
            ("language"@, JsonValue::Text(language)),
            ("ast"@, node_value(ast)),
        ],
    )
}

fn field(name: &str, value: JsonDoc) -> (f: JsonField)
    ensures
        f.name@ == name@,
        f.value == value,
{
    JsonField { name: String::from_str(name), value }
}

/// Builds the JSON object of a node.
pub fn node_doc(node: &JsonNode) -> (doc: JsonDoc)
    ensures
        doc@ == node_value(node@),
    decreases node,
{
    let children = match &node.children {
        Some(c) => {
            let mut items: Vec<JsonDoc> = Vec::new();
            let mut i: usize = 0;
            while i < c.len()
                invariant
                    i <= c.len(),
                    items@.len() == i,
                    node.children == Some(*c),
                    forall|j: int| 0 <= j < i ==> (#[trigger] items@[j])@ == node_value(c@[j]@),
                decreases c.len() - i,
            {
                proof {
                    assert(decreases_to!(node => node.children));
                    assert(decreases_to!(node.children => node.children->Some_0));
                    assert(decreases_to!(node.children->Some_0 => node.children->Some_0[i as int]));
                }
                let item = node_doc(&c[i]);
                items.push(item);
                i += 1;
            }
            let array = JsonDoc::Array(items);
            assert(array@->Array_0 =~= node_value(node@)->Object_0[3].1->Array_0);
            array
        },
        None => JsonDoc::Null,
    };
    let text = match &node.text {
        Some(t) => JsonDoc::Text(t.clone()),
        None => JsonDoc::Null,
    };
    let mut fields: Vec<JsonField> = Vec::new();
    fields.push(field("kind", JsonDoc::Text(node.kind.clone())));
    fields.push(field("start_byte", JsonDoc::Number(node.start_byte)));
    fields.push(field("end_byte", JsonDoc::Number(node.end_byte)));
    fields.push(field("children", children));
    fields.push(field("text", text));
    let doc = JsonDoc::Object(fields);
    proof {
        reveal_with_fuel(doc_model, 2);
        assert(doc@->Object_0 =~= node_value(node@)->Object_0);
    }
    doc
}

/// Wraps the tree of a file into its output document.
pub fn document_doc(filename: &str, language: &str, ast: &JsonNode) -> (doc: JsonDoc)
    ensures
        doc@ == document_value(filename@, language@, ast@),
{
    let mut fields: Vec<JsonField> = Vec::new();
    fields.push(field("version", JsonDoc::Text(String::from_str("astgen-0.1"))));
    fields.push(field("filename", JsonDoc::Text(String::from_str(filename))));
    fields.push(field("language", JsonDoc::Text(String::from_str(language))));
    fields.push(field("ast", node_doc(ast)));
    let doc = JsonDoc::Object(fields);
    proof {
        reveal_with_fuel(doc_model, 2);
        assert(doc@->Object_0 =~= document_value(filename@, language@, ast@)->Object_0);
    }
    doc
}

/// `serde_json::Value`, held as an opaque value.
#[verifier::external_type_specification]
#[verifier::external_body]
pub struct ExJsonValue(serde_json::Value);

/// The `serde_json::Value` that is built from a JSON value, variant by
/// variant, the entries of an object inserted in their order.
pub uninterp spec fn built_value(value: JsonValue) -> serde_json::Value;

/// The text that `serde_json::to_string` writes for a `serde_json::Value`.
pub uninterp spec fn compact_text(value: serde_json::Value) -> Seq<char>;

/// The compact text of a JSON value: what `serde_json::to_string` writes
/// for the `serde_json::Value` built from it.
pub open spec fn json_rendering(value: JsonValue) -> Seq<char> {
    compact_text(built_value(value))
}

/// Copies a JSON value into `serde_json::Value`, variant by variant; the
/// entries of an object are inserted in their order. The contract only
/// gives the result its name.
#[verifier::external_body]
pub(crate) fn to_json_value(doc: &JsonDoc) -> (value: serde_json::Value)
    ensures
        value == built_value(doc@),
{
    match doc {
        JsonDoc::Null => serde_json::Value::Null,
        JsonDoc::Number(n) => serde_json::Value::from(*n),
        JsonDoc::Text(t) => serde_json::Value::from(t.as_str()),
        JsonDoc::Array(items) => serde_json::Value::Array(items.iter().map(to_json_value).collect()),
        JsonDoc::Object(fields) => serde_json::Value::Object(
            fields.iter().map(|f| (f.name.clone(), to_json_value(&f.value))).collect(),
        ),
    }
}

/// Calls `serde_json::to_string` on a `serde_json::Value`. The contract
/// claims that a text comes back, since a value of nulls, booleans, numbers,
/// texts, arrays and objects with text keys has nothing that the writer
/// refuses, and that the text depends on the value alone; it gives the text
/// its name.
#[verifier::external_body]
fn value_to_string(value: &serde_json::Value) -> (text: Result<String, serde_json::Error>)
    ensures
        text is Ok,
        text matches Ok(t) ==> t@ == compact_text(*value),
{
    serde_json::to_string(value)
}

/// The compact JSON text of a value. Every value has one.
pub fn json_text(doc: &JsonDoc) -> (text: Result<String, AstgenError>)
    ensures
        text matches Ok(t) && t@ == json_rendering(doc@),
{
    match value_to_string(&to_json_value(doc)) {
        Ok(t) => Ok(t),
        Err(e) => Err(serialization_error(&e)),
    }
}

/// The bytes of a rendered document that are written out: all of them, or,
/// under a length limit, those that `truncated_len` keeps.
pub open spec fn preview(rendered: Seq<char>, truncate: Option<usize>) -> Seq<u8> {
    match truncate {
        Some(limit) => encode_utf8(rendered).subrange(
            0,
            truncated_len(encode_utf8(rendered), limit as int),
        ),
        None => encode_utf8(rendered),
    }
}

/// Applies the optional length limit to a rendered document.
pub fn finish_document(rendered: String, truncate: Option<usize>) -> (out: String)
    ensures
        encode_utf8(out@) == preview(rendered@, truncate),
{
    match truncate {
        Some(limit) => truncate_output(rendered.as_str(), limit),
        None => rendered,
    }
}

/// Wraps the tree of a file into its document, renders it as compact JSON
/// and applies the optional length limit.
pub fn render_document(filename: &str, language: &str, ast: &JsonNode, truncate: Option<usize>) -> (out:
    Result<String, AstgenError>)
    ensures
        out matches Ok(text) && encode_utf8(text@) == preview(
            json_rendering(document_value(filename@, language@, ast@)),
            truncate,
        ),
{
    let doc = document_doc(filename, language, ast);
    match json_text(&doc) {
        Ok(text) => Ok(finish_document(text, truncate)),
        Err(e) => Err(e),
    }
}

/// The size limit that applies when none is given, in bytes.
pub const DEFAULT_MAX_SIZE_BYTES: usize = 10_000_000;

/// Refuses a file that is larger than the limit, before it is read.
pub fn check_size(path: &str, file_size: usize, max_size_bytes: usize) -> (checked: Result<
    (),
    AstgenError,
>)
    ensures
        checked.is_ok() == (file_size <= max_size_bytes),
        checked matches Err(e) ==> e matches AstgenError::FileTooLarge { path: p, size, limit }
            && p@ == path@ && size == file_size && limit == max_size_bytes,
{
    if file_size > max_size_bytes {
        Err(
            AstgenError::FileTooLarge {
                path: String::from_str(path),
                size: file_size,
                limit: max_size_bytes,
            },
        )
    } else {
        Ok(())
    }
}

/// Whether an I/O error is of the kind that the standard library gives to
/// data that is not valid text (`std::io::ErrorKind::InvalidData`).
pub uninterp spec fn is_invalid_data_error(error: std::io::Error) -> bool;

/// Calls `std::io::Error::kind` and tells the kind `InvalidData` from all
/// others.
#[verifier::external_body]
fn is_invalid_data(error: &std::io::Error) -> (invalid: bool)
    ensures
        invalid == is_invalid_data_error(*error),
{
    matches!(error.kind(), std::io::ErrorKind::InvalidData)
}

/// The error for a file that could not be read as text, once it is known
/// whether the reading failed on the encoding.
pub fn read_failure(path: &str, invalid_data: bool, error: std::io::Error) -> (e: AstgenError)
    ensures
        invalid_data ==> (e matches AstgenError::InvalidEncoding(p) && p@ == path@),
        !invalid_data ==> e == AstgenError::IoError(error),
{
    if invalid_data {
        AstgenError::InvalidEncoding(String::from_str(path))
    } else {
        AstgenError::IoError(error)
    }
}

/// The error for a file that could not be read as text: a file that is not
/// valid UTF-8 has an invalid encoding, every other failure is an I/O error.
pub fn read_error(path: &str, error: std::io::Error) -> (e: AstgenError)
    ensures
        is_invalid_data_error(error) ==> (e matches AstgenError::InvalidEncoding(p) && p@
            == path@),
        !is_invalid_data_error(error) ==> e == AstgenError::IoError(error),
{
    let invalid = is_invalid_data(&error);
    read_failure(path, invalid, error)
}

/// The bytes of the document of a file, if its text has a usable tree.
pub open spec fn expected_document(
    path: Seq<char>,
    content: Seq<char>,
    encoding: Encoding,
    truncate: Option<usize>,
) -> Option<Seq<u8>> {
    match usable_tree(encoding.grammar(), content) {
        Some(tree) => Some(
            preview(
                json_rendering(
                    document_value(path, encoding.display_name(), json_of(content, tree)),
                ),
                truncate,
            ),
        ),
        None => None,
    }
}

/// What `parse_content` owes for a file: the expected document for a text
/// with a usable tree, the grammar's refusal for a grammar that is not
/// taken, and a parse error for every other text.
pub open spec fn is_document_outcome(
    out: Result<String, AstgenError>,
    path: Seq<char>,
    content: Seq<char>,
    encoding: Encoding,
    truncate: Option<usize>,
) -> bool {
    match grammar_refusal(encoding.grammar()) {
        Some(refusal) => out matches Err(AstgenError::TreeSitterError(e)) && e == refusal,
        None => match expected_document(path, content, encoding, truncate) {
            Some(bytes) => out matches Ok(text) && encode_utf8(text@) == bytes,
            None => out matches Err(AstgenError::ParseError(msg)) && msg@ == no_tree_message(),
        },
    }
}

/// The document of a file whose text was read: parse with the grammar of
/// the binding, convert, wrap, render, cut. A text with a usable tree gives
/// exactly the expected document, whether or not the tree holds error
/// nodes. A grammar that is refused gives the refusal, and a text without
/// usable tree a parse error.
pub fn parse_content(path: &str, content: &str, encoding: &Encoding, truncate: Option<usize>) -> (out:
    Result<String, AstgenError>)
    ensures
        is_document_outcome(out, path@, content@, *encoding, truncate),
        expected_document(path@, content@, *encoding, truncate) is Some ==> out is Ok,
{
    match build_parse_tree_safe(content, encoding.language()) {
        Ok(ast) => render_document(path, encoding.name(), &ast, truncate),
        Err(e) => Err(e),
    }
}

/// Running twice gives the same result: two outcomes of `parse_content` for
/// the same path, text, binding and limit are both the same document, or
/// both the same refusal, or both the same parse error.
pub proof fn lemma_document_is_determined(
    path: Seq<char>,
    content: Seq<char>,
    encoding: Encoding,
    truncate: Option<usize>,
    first: Result<String, AstgenError>,
    second: Result<String, AstgenError>,
)
    requires
        is_document_outcome(first, path, content, encoding, truncate),
        is_document_outcome(second, path, content, encoding, truncate),
    ensures
        match first {
            Ok(text) => second matches Ok(again) && again@ == text@,
            Err(AstgenError::TreeSitterError(e)) => second matches Err(
                AstgenError::TreeSitterError(again),
            ) && again == e,
            Err(AstgenError::ParseError(msg)) => second matches Err(
                AstgenError::ParseError(again),
            ) && again@ == msg@,
            Err(_) => false,
        },
{
    if let Ok(text) = first {
        let again = second->Ok_0;
        encode_utf8_decode_utf8(text@);
        encode_utf8_decode_utf8(again@);
    }
}

/// As `parse_content`, with a parser that the caller keeps: the grammar of
/// the binding is set on it first. A text of more than ten million bytes is
/// refused as too large before the parser is touched. With a parser in its
/// default state the outcome is that of `parse_content`; of a parser in
/// another state only the kind of the outcome is known.
pub fn parse_content_with_parser(
    path: &str,
    content: &str,
    encoding: &Encoding,
    parser: &mut tree_sitter::Parser,
    truncate: Option<usize>,
) -> (out: Result<String, AstgenError>)
    ensures
        parser_default(*old(parser)) ==> parser_default(*final(parser)),
        encode_utf8(content@).len() > DEFAULT_MAX_SIZE_BYTES ==> (out matches Err(
            AstgenError::FileTooLarge { path: p, size, limit },
        ) && p@ == path@ && size == encode_utf8(content@).len() && limit
            == DEFAULT_MAX_SIZE_BYTES),
        encode_utf8(content@).len() <= DEFAULT_MAX_SIZE_BYTES ==> match out {
            Ok(_) => grammar_accepted(encoding.grammar()),
            Err(AstgenError::TreeSitterError(e)) => grammar_refusal(encoding.grammar()) == Some(e),
            Err(AstgenError::ParseError(msg)) => grammar_accepted(encoding.grammar()) && msg@
                == no_tree_message(),
            Err(_) => false,
        },
        encode_utf8(content@).len() <= DEFAULT_MAX_SIZE_BYTES && parser_default(*old(parser))
            ==> is_document_outcome(out, path@, content@, *encoding, truncate),
{
    let size = content.as_bytes().len();
    if let Err(e) = check_size(path, size, DEFAULT_MAX_SIZE_BYTES) {
        return Err(e);
    }
    if let Err(e) = parser_set_language(parser, encoding.language()) {
        return Err(AstgenError::TreeSitterError(e));
    }
    let parsed = lift_parsed(parser_parse(parser, content));
    match json_from_parse(content, parsed) {
        Ok(ast) => render_document(path, encoding.name(), &ast, truncate),
        Err(e) => Err(e),
    }
}

} // verus!
