//! SQL syntax trees as flat lists, and the shapes of statements that are read page by page or edited.
use vstd::prelude::*;
use vstd::string::*;

use crate::selection::{lemma_positions_push, positions, selected, selected_ascends};
use crate::text::{contains_text, same_text};
use crate::value::Value;

verus! {

/// One node of a syntax tree. A list of nodes in preorder, each with its depth, stands for the tree.
#[derive(Debug, PartialEq, Eq)]
pub struct SyntaxNode {
    pub depth: u32,
    pub kind: String,
    /// Whether the grammar names the node; punctuation and literals are anonymous.
    pub named: bool,
    /// Whether the node holds a syntax error anywhere below it.
    pub has_error: bool,
    /// The source text that the node covers.
    pub text: String,
}

/// What a `SyntaxNode` denotes.
pub ghost struct SyntaxNodeView {
    pub depth: u32,
    pub kind: Seq<char>,
    pub named: bool,
    pub has_error: bool,
    pub text: Seq<char>,
}

impl DeepView for SyntaxNode {
    type V = SyntaxNodeView;

    open spec fn deep_view(&self) -> SyntaxNodeView {
        SyntaxNodeView {
            depth: self.depth,
            kind: self.kind@,
            named: self.named,
            has_error: self.has_error,
            text: self.text@,
        }
    }
}

impl Clone for SyntaxNode {
    fn clone(&self) -> (copy: SyntaxNode)
        ensures
            copy@ == self@,
    {
        self.duplicate()
    }
}

impl View for SyntaxNode {
    type V = SyntaxNodeView;

    open spec fn view(&self) -> SyntaxNodeView {
        self.deep_view()
    }
}

impl Value for SyntaxNode {
    fn duplicate(&self) -> (copy: SyntaxNode) {
        SyntaxNode {
            depth: self.depth,
            kind: self.kind.duplicate(),
            named: self.named,
            has_error: self.has_error,
            text: self.text.duplicate(),
        }
    }

    fn same(&self, other: &SyntaxNode) -> (same: bool) {
        self.depth == other.depth
            && self.kind.same(&other.kind)
            && self.named == other.named
            && self.has_error == other.has_error
            && self.text.same(&other.text)
    }
}

/// The syntax tree that the SQL grammar gives a text, in preorder; none where there is none.
pub uninterp spec fn syntax_tree(sql: Seq<char>) -> Option<Seq<SyntaxNodeView>>;

/// `tree_sitter::Parser::parse` with the grammar of `tree_sitter_sequel`, flattened in preorder by
/// `TreeCursor::goto_descendant`. The tree is a function of the text alone. It has a root, and the
/// text of each node is a part of the source.
#[verifier::external_body]
fn parse_sql(sql: &str) -> (tree: Option<Vec<SyntaxNode>>)
    ensures
        tree.deep_view() == syntax_tree(sql@),
        tree matches Some(nodes) ==> nodes@.len() > 0 && forall|i: int|
            0 <= i < nodes@.len() ==> contains_text(sql@, (#[trigger] nodes@[i]).text@),
{
    let mut parser = tree_sitter::Parser::new();
    parser.set_language(&tree_sitter_sequel::LANGUAGE.into()).ok()?;
    let tree = parser.parse(sql, None)?;
    let mut cursor = tree.walk();
    let mut nodes = Vec::new();
    for index in 0..tree.root_node().descendant_count() {
        cursor.goto_descendant(index);
        let (depth, node) = (cursor.depth(), cursor.node());
        let (kind, text) = (node.kind().to_owned(), sql[node.byte_range()].to_owned());
        nodes.push(
            SyntaxNode { depth, kind, named: node.is_named(), has_error: node.has_error(), text },
        );
    }
    Some(nodes)
}

/// Whether node `i` lies below node `top`.
pub open spec fn below(nodes: Seq<SyntaxNodeView>, top: int, i: int) -> bool {
    0 <= top < i < nodes.len() && forall|j: int|
        top < j <= i ==> (#[trigger] nodes[j]).depth > nodes[top].depth
}

/// Whether node `i` is a named child of node `top`.
pub open spec fn named_child(nodes: Seq<SyntaxNodeView>, top: int, i: int) -> bool {
    below(nodes, top, i) && nodes[i].depth == nodes[top].depth + 1 && nodes[i].named
}

/// Whether node `i` is `top` itself, or lies below it with only named nodes on the way and is named.
pub open spec fn reached(nodes: Seq<SyntaxNodeView>, top: int, i: int) -> bool {
    0 <= top < nodes.len() && (i == top || below(nodes, top, i) && nodes[i].named && forall|a: int|
        top < a && #[trigger] below(nodes, a, i) ==> nodes[a].named)
}

/// The kinds that hold no SQL.
pub open spec fn remark(kind: Seq<char>) -> bool {
    kind == "comment"@ || kind == "marginalia"@
}

/// Whether node `i` is a named child of `top` that holds SQL.
pub open spec fn part(nodes: Seq<SyntaxNodeView>, top: int, i: int) -> bool {
    named_child(nodes, top, i) && !remark(nodes[i].kind)
}

fn is_remark(kind: &str) -> (result: bool)
    ensures
        result == remark(kind@),
{
    same_text(kind, "comment") || same_text(kind, "marginalia")
}

/// The end of the nodes below `top`.
fn end_of(nodes: &Vec<SyntaxNode>, top: usize) -> (end: usize)
    requires
        top < nodes@.len(),
    ensures
        top < end <= nodes@.len(),
        forall|i: int| #[trigger]
            below(nodes.deep_view(), top as int, i) <==> top < i < end,
{
    let ghost all = nodes.deep_view();
    let count: usize = nodes.len();
    let mut end: usize = top + 1;
    while end < count && nodes[end].depth > nodes[top].depth
        invariant
            top < end <= nodes@.len(),
            count == nodes@.len(),
            all == nodes.deep_view(),
            forall|j: int| top < j < end ==> (#[trigger] all[j]).depth > all[top as int].depth,
        decreases nodes@.len() - end,
    {
        assert(all[end as int] == nodes@[end as int]@);
        end += 1;
    }
    proof {
        assert forall|i: int| #[trigger] below(all, top as int, i) <==> top < i < end by {
            if below(all, top as int, i) && end <= i {
                assert(all[end as int] == nodes@[end as int]@);
                assert(all[end as int].depth > all[top as int].depth);
            }
        }
    }
    end
}

/// The named children of `top`, with or without those that hold no SQL.
fn parts_of(nodes: &Vec<SyntaxNode>, top: usize) -> (parts: Vec<usize>)
    requires
        top < nodes@.len(),
    ensures
        positions(parts@) == selected(
            nodes@.len(),
            |i: int| part(nodes.deep_view(), top as int, i),
        ),
{
    let ghost all = nodes.deep_view();
    let ghost is_part = |i: int| part(all, top as int, i);
    let end = end_of(nodes, top);
    let mut parts: Vec<usize> = Vec::new();
    let mut i: usize = 0;
    while i < nodes.len()
        invariant
            i <= nodes@.len(),
            top < nodes@.len(),
            all == nodes.deep_view(),
            is_part == (|i: int| part(all, top as int, i)),
            forall|i: int| #[trigger] below(all, top as int, i) <==> top < i < end,
            positions(parts@) =~= selected(i as nat, is_part),
        decreases nodes@.len() - i,
    {
        assert(all[i as int] == nodes@[i as int]@);
        proof {
            lemma_positions_push(parts@, i);
        }
        if top < i && i < end && nodes[top].depth < nodes[i].depth && nodes[i].depth
            - nodes[top].depth == 1 && nodes[i].named && !is_remark(nodes[i].kind.as_str()) {
            assert(is_part(i as int));
            parts.push(i);
        } else {
            assert(!is_part(i as int)) by {
                if part(all, top as int, i as int) {
                    assert(below(all, top as int, i as int));
                }
            }
        }
        i += 1;
    }
    parts
}

/// The nodes that are reached from `top`.
fn reached_from(nodes: &Vec<SyntaxNode>, top: usize) -> (found: Vec<usize>)
    requires
        top < nodes@.len(),
    ensures
        positions(found@) == selected(
            nodes@.len(),
            |i: int| reached(nodes.deep_view(), top as int, i),
        ),
{
    let ghost all = nodes.deep_view();
    let ghost is_reached = |i: int| reached(all, top as int, i);
    let end = end_of(nodes, top);
    let mut found: Vec<usize> = Vec::new();
    // The outermost anonymous node whose subtree holds the current one.
    let mut skip: Option<usize> = None;
    let mut i: usize = 0;
    while i < nodes.len()
        invariant
            i <= nodes@.len(),
            top < end <= nodes@.len(),
            all == nodes.deep_view(),
            is_reached == (|i: int| reached(all, top as int, i)),
            forall|i: int| #[trigger] below(all, top as int, i) <==> top < i < end,
            positions(found@) =~= selected(i as nat, is_reached),
            match skip {
                Some(s) => top < s < i && !all[s as int].named && forall|j: int|
                    s < j < i ==> (#[trigger] all[j]).depth > all[s as int].depth,
                None => true,
            },
            forall|a: int|
                top < a < i && !(#[trigger] all[a]).named && (forall|j: int|
                    a < j < i ==> (#[trigger] all[j]).depth > all[a].depth) ==> (match skip {
                    Some(s) => s <= a && all[s as int].depth <= all[a].depth,
                    None => false,
                }),
        decreases nodes@.len() - i,
    {
        assert(all[i as int] == nodes@[i as int]@);
        proof {
            lemma_positions_push(found@, i);
        }
        let inside = match skip {
            Some(s) => {
                assert(all[s as int] == nodes@[s as int]@);
                nodes[i].depth > nodes[s].depth
            },
            None => false,
        };
        if i <= top {
            if i == top {
                found.push(i);
            }
            assert(is_reached(i as int) == (i == top));
        } else if inside {
            proof {
                let s = skip->Some_0 as int;
                assert(below(all, s, i as int));
                assert(!is_reached(i as int));
            }
        } else {
            if nodes[i].named {
                skip = None;
                if i < end {
                    proof {
                        assert(below(all, top as int, i as int));
                        assert forall|a: int|
                            top < a && #[trigger] below(all, a, i as int) implies all[a].named by {
                            if !all[a].named {
                                assert(forall|j: int|
                                    a < j < i ==> (#[trigger] all[j]).depth > all[a].depth);
                            }
                        }
                        assert(is_reached(i as int));
                    }
                    found.push(i);
                } else {
                    assert(!is_reached(i as int)) by {
                        assert(!below(all, top as int, i as int));
                    }
                }
            } else {
                assert(!is_reached(i as int));
                skip = Some(i);
            }
        }
        proof {
            assert forall|a: int|
                top < a < i + 1 && !(#[trigger] all[a]).named && (forall|j: int|
                    a < j < i + 1 ==> (#[trigger] all[j]).depth > all[a].depth) implies (
            match skip {
                Some(s) => s <= a && all[s as int].depth <= all[a].depth,
                None => false,
            }) by {
                if a < i {
                    assert(all[i as int].depth > all[a].depth);
                    assert(forall|j: int| a < j < i ==> (#[trigger] all[j]).depth > all[a].depth);
                }
            }
        }
        i += 1;
    }
    found
}

/// The parts that a paged statement may have.
pub open spec fn readable_part(kind: Seq<char>) -> bool {
    kind == "select"@ || kind == "from"@ || kind == "set_operation"@ || kind == "cte"@ || kind
        == "keyword_with"@ || kind == "keyword_recursive"@
}

/// The words of statements that must execute fully as written: SELECT INTO, locking reads, and
/// data-modifying common table expressions.
pub open spec fn writing_word(kind: Seq<char>) -> bool {
    kind == "keyword_into"@ || kind == "keyword_insert"@ || kind == "keyword_update"@ || kind
        == "keyword_delete"@ || kind == "keyword_merge"@ || kind == "keyword_for"@
}

/// Whether node `s` is the only statement of the text, and reads rows without writing or locking.
pub open spec fn single_read(nodes: Seq<SyntaxNodeView>, s: int) -> bool {
    &&& nodes.len() > 0 && !nodes[0].has_error
    &&& part(nodes, 0, s) && forall|i: int| part(nodes, 0, i) ==> i == s
    &&& nodes[s].kind == "statement"@
    &&& exists|i: int|
        part(nodes, s, i) && (nodes[i].kind == "select"@ || nodes[i].kind == "set_operation"@)
    &&& forall|i: int| part(nodes, s, i) ==> readable_part(nodes[i].kind)
    &&& forall|i: int| reached(nodes, s, i) ==> !writing_word(nodes[i].kind)
}

/// The single read in a tree, as it was written.
pub open spec fn read_text(nodes: Seq<SyntaxNodeView>) -> Option<Seq<char>> {
    if exists|s: int| single_read(nodes, s) {
        Some(nodes[choose|s: int| single_read(nodes, s)].text)
    } else {
        None
    }
}

fn is_readable_part(kind: &str) -> (result: bool)
    ensures
        result == readable_part(kind@),
{
    same_text(kind, "select") || same_text(kind, "from") || same_text(kind, "set_operation")
        || same_text(kind, "cte") || same_text(kind, "keyword_with") || same_text(
        kind,
        "keyword_recursive",
    )
}

fn is_writing_word(kind: &str) -> (result: bool)
    ensures
        result == writing_word(kind@),
{
    same_text(kind, "keyword_into") || same_text(kind, "keyword_insert") || same_text(
        kind,
        "keyword_update",
    ) || same_text(kind, "keyword_delete") || same_text(kind, "keyword_merge") || same_text(
        kind,
        "keyword_for",
    )
}

proof fn lemma_listed(list: Seq<usize>, count: nat, picked: spec_fn(int) -> bool)
    requires
        positions(list) == selected(count, picked),
    ensures
        forall|k: int|
            0 <= k < list.len() ==> 0 <= #[trigger] list[k] < count && picked(list[k] as int),
        forall|i: int|
            0 <= i < count && #[trigger] picked(i) ==> exists|k: int|
                0 <= k < list.len() && #[trigger] list[k] == i,
{
    selected_ascends(count, picked);
    assert forall|k: int| 0 <= k < list.len() implies 0 <= #[trigger] list[k] < count && picked(
        list[k] as int,
    ) by {
        assert(positions(list)[k] == list[k]);
    }
    assert forall|i: int| 0 <= i < count && #[trigger] picked(i) implies exists|k: int|
        0 <= k < list.len() && #[trigger] list[k] == i by {
        assert(selected(count, picked).contains(i));
        let k = choose|k: int| 0 <= k < positions(list).len() && positions(list)[k] == i;
        assert(list[k] == i);
    }
}

/// The text of the single read in a tree; none where the tree is anything else.
pub fn single_read_text(nodes: &Vec<SyntaxNode>) -> (text: Option<String>)
    ensures
        text.deep_view() == read_text(nodes.deep_view()),
{
    let ghost all = nodes.deep_view();
    if nodes.len() == 0 || nodes[0].has_error {
        assert(forall|s: int| !single_read(all, s));
        return None;
    }
    let statements = parts_of(nodes, 0);
    proof {
        lemma_listed(statements@, nodes@.len(), |i: int| part(all, 0, i));
    }
    if statements.len() != 1 {
        proof {
            if exists|s: int| single_read(all, s) {
                let s = choose|s: int| single_read(all, s);
                assert((|i: int| part(all, 0, i))(s));
                selected_ascends(nodes@.len(), |i: int| part(all, 0, i));
                let k = choose|k: int| 0 <= k < statements@.len() && statements@[k] == s;
                let other = if k == 0 { 1int } else { 0int };
                assert(part(all, 0, statements@[other] as int));
                assert(positions(statements@)[other] != positions(statements@)[k]);
            }
        }
        return None;
    }
    let s = statements[0];
    proof {
        assert(part(all, 0, s as int));
        assert forall|i: int| part(all, 0, i) implies i == s by {
            assert((|i: int| part(all, 0, i))(i));
        }
        assert(all[s as int] == nodes@[s as int]@);
        assert(forall|t: int| single_read(all, t) ==> t == s);
    }
    if !same_text(nodes[s].kind.as_str(), "statement") {
        return None;
    }
    let children = parts_of(nodes, s);
    let ghost is_child = |i: int| part(all, s as int, i);
    proof {
        lemma_listed(children@, nodes@.len(), is_child);
    }
    let mut found = false;
    let mut k: usize = 0;
    while k < children.len()
        invariant
            k <= children@.len(),
            all == nodes.deep_view(),
            s < nodes@.len(),
            is_child == (|i: int| part(all, s as int, i)),
            forall|k: int|
                0 <= k < children@.len() ==> 0 <= #[trigger] children@[k] < nodes@.len()
                    && is_child(children@[k] as int),
            forall|t: int| single_read(all, t) ==> t == s,
            forall|j: int|
                0 <= j < k ==> readable_part(all[#[trigger] children@[j] as int].kind),
            found <==> exists|j: int|
                0 <= j < k && (all[#[trigger] children@[j] as int].kind == "select"@
                    || all[children@[j] as int].kind == "set_operation"@),
        decreases children@.len() - k,
    {
        let index = children[k];
        let node = &nodes[index];
        assert(all[index as int] == node@);
        if !is_readable_part(node.kind.as_str()) {
            assert(!single_read(all, s as int)) by {
                assert(part(all, s as int, index as int));
            }
            return None;
        }
        if same_text(node.kind.as_str(), "select") || same_text(
            node.kind.as_str(),
            "set_operation",
        ) {
            assert(children@[k as int] == index);
            found = true;
        }
        k += 1;
    }
    proof {
        if !found {
            assert forall|i: int| part(all, s as int, i) implies all[i].kind != "select"@
                && all[i].kind != "set_operation"@ by {
                assert(is_child(i));
                let j = choose|j: int| 0 <= j < children@.len() && children@[j] == i;
                assert(all[children@[j] as int].kind != "select"@);
            }
            assert(!single_read(all, s as int));
        } else {
            let j = choose|j: int|
                0 <= j < k && (all[#[trigger] children@[j] as int].kind == "select"@
                    || all[children@[j] as int].kind == "set_operation"@);
            assert(part(all, s as int, children@[j] as int));
        }
        assert forall|i: int| part(all, s as int, i) implies readable_part(all[i].kind) by {
            assert(is_child(i));
            let j = choose|j: int| 0 <= j < children@.len() && children@[j] == i;
            assert(readable_part(all[children@[j] as int].kind));
        }
    }
    if !found {
        return None;
    }
    let inner = reached_from(nodes, s);
    let ghost is_inner = |i: int| reached(all, s as int, i);
    proof {
        lemma_listed(inner@, nodes@.len(), is_inner);
    }
    let mut m: usize = 0;
    while m < inner.len()
        invariant
            m <= inner@.len(),
            all == nodes.deep_view(),
            is_inner == (|i: int| reached(all, s as int, i)),
            forall|k: int|
                0 <= k < inner@.len() ==> 0 <= #[trigger] inner@[k] < nodes@.len() && is_inner(
                    inner@[k] as int,
                ),
            forall|t: int| single_read(all, t) ==> t == s,
            forall|j: int| 0 <= j < m ==> !writing_word(all[#[trigger] inner@[j] as int].kind),
        decreases inner@.len() - m,
    {
        let index = inner[m];
        assert(all[index as int] == nodes@[index as int]@);
        if is_writing_word(nodes[index].kind.as_str()) {
            assert(!single_read(all, s as int)) by {
                assert(is_inner(index as int));
                assert(reached(all, s as int, index as int));
            }
            return None;
        }
        m += 1;
    }
    proof {
        assert forall|i: int| reached(all, s as int, i) implies !writing_word(all[i].kind) by {
            assert(is_inner(i));
            let j = choose|j: int| 0 <= j < inner@.len() && inner@[j] == i;
            assert(!writing_word(all[inner@[j] as int].kind));
        }
        assert(single_read(all, s as int));
    }
    Some(nodes[s].text.clone())
}

/// The kinds of nodes whose statements combine rows, or may: function calls can be aggregates or
/// set-returning even under an ordinary SELECT.
pub open spec fn combining(kind: Seq<char>) -> bool {
    kind == "cte"@ || kind == "subquery"@ || kind == "set_operation"@ || kind == "group_by"@ || kind
        == "keyword_distinct"@ || kind == "join"@ || kind == "cross_join"@ || kind
        == "lateral_join"@ || kind == "lateral_cross_join"@ || kind == "invocation"@ || kind
        == "window_function"@ || kind == "window_clause"@ || kind == "keyword_into"@ || kind
        == "keyword_for"@
}

fn is_combining(kind: &str) -> (result: bool)
    ensures
        result == combining(kind@),
{
    same_text(kind, "cte") || same_text(kind, "subquery") || same_text(kind, "set_operation")
        || same_text(kind, "group_by") || same_text(kind, "keyword_distinct") || same_text(
        kind,
        "join",
    ) || same_text(kind, "cross_join") || same_text(kind, "lateral_join") || same_text(
        kind,
        "lateral_cross_join",
    ) || same_text(kind, "invocation") || same_text(kind, "window_function") || same_text(
        kind,
        "window_clause",
    ) || same_text(kind, "keyword_into") || same_text(kind, "keyword_for")
}

/// Whether node `i` is reached from the root and has the kind.
pub open spec fn occurs(nodes: Seq<SyntaxNodeView>, kind: Seq<char>, i: int) -> bool {
    reached(nodes, 0, i) && nodes[i].kind == kind
}

/// Whether a relation names an object, as opposed to a function or a list of values.
pub open spec fn names_object(nodes: Seq<SyntaxNodeView>, i: int) -> bool {
    exists|c: int| named_child(nodes, i, c) && nodes[c].kind == "object_reference"@
}

/// Whether the rows of the statement directly represent the rows of one table: exactly one select,
/// exactly one relation, which names an object, and nothing that combines rows.
pub open spec fn one_table_read(nodes: Seq<SyntaxNodeView>) -> bool {
    &&& nodes.len() > 0 && !nodes[0].has_error
    &&& forall|i: int| reached(nodes, 0, i) ==> !combining(nodes[i].kind)
    &&& forall|i: int| occurs(nodes, "relation"@, i) ==> names_object(nodes, i)
    &&& selected(nodes.len(), |i: int| occurs(nodes, "select"@, i)).len() == 1
    &&& selected(nodes.len(), |i: int| occurs(nodes, "relation"@, i)).len() == 1
}

fn has_object_reference(nodes: &Vec<SyntaxNode>, top: usize) -> (found: bool)
    requires
        top < nodes@.len(),
    ensures
        found == names_object(nodes.deep_view(), top as int),
{
    let ghost all = nodes.deep_view();
    proof {
        reveal_strlit("object_reference");
        reveal_strlit("comment");
        reveal_strlit("marginalia");
    }
    let parts = parts_of(nodes, top);
    let ghost is_part = |i: int| part(all, top as int, i);
    proof {
        lemma_listed(parts@, nodes@.len(), is_part);
    }
    let mut k: usize = 0;
    while k < parts.len()
        invariant
            k <= parts@.len(),
            all == nodes.deep_view(),
            is_part == (|i: int| part(all, top as int, i)),
            forall|k: int|
                0 <= k < parts@.len() ==> 0 <= #[trigger] parts@[k] < nodes@.len() && is_part(
                    parts@[k] as int,
                ),
            forall|j: int|
                0 <= j < k ==> all[#[trigger] parts@[j] as int].kind != "object_reference"@,
        decreases parts@.len() - k,
    {
        let index = parts[k];
        assert(all[index as int] == nodes@[index as int]@);
        if same_text(nodes[index].kind.as_str(), "object_reference") {
            assert(is_part(index as int));
            assert(named_child(all, top as int, index as int));
            return true;
        }
        k += 1;
    }
    proof {
        assert forall|c: int| named_child(all, top as int, c) implies all[c].kind
            != "object_reference"@ by {
            if all[c].kind == "object_reference"@ {
                assert("object_reference"@.len() == 16);
                assert("comment"@.len() == 7);
                assert("marginalia"@.len() == 10);
                assert(is_part(c));
                let j = choose|j: int| 0 <= j < parts@.len() && parts@[j] == c;
                assert(all[parts@[j] as int].kind != "object_reference"@);
            }
        }
    }
    false
}

/// Whether the tree is that of a plain read of one table.
pub fn reads_one_table(nodes: &Vec<SyntaxNode>) -> (result: bool)
    ensures
        result == one_table_read(nodes.deep_view()),
{
    let ghost all = nodes.deep_view();
    if nodes.len() == 0 || nodes[0].has_error {
        return false;
    }
    let inner = reached_from(nodes, 0);
    let ghost is_inner = |i: int| reached(all, 0, i);
    let ghost is_select = |i: int| occurs(all, "select"@, i);
    let ghost is_relation = |i: int| occurs(all, "relation"@, i);
    proof {
        lemma_listed(inner@, nodes@.len(), is_inner);
    }
    let mut selects: usize = 0;
    let mut relations: usize = 0;
    let mut k: usize = 0;
    while k < inner.len()
        invariant
            k <= inner@.len(),
            nodes@.len() > 0,
            all == nodes.deep_view(),
            !all[0].has_error,
            is_inner == (|i: int| reached(all, 0, i)),
            positions(inner@) == selected(nodes@.len(), is_inner),
            forall|k: int|
                0 <= k < inner@.len() ==> 0 <= #[trigger] inner@[k] < nodes@.len() && is_inner(
                    inner@[k] as int,
                ),
            forall|j: int| 0 <= j < k ==> !combining(all[#[trigger] inner@[j] as int].kind),
            forall|j: int|
                0 <= j < k && all[inner@[j] as int].kind == "relation"@ ==> names_object(
                    all,
                    #[trigger] inner@[j] as int,
                ),
            selects <= k,
            relations <= k,
            selects == matching(all, inner@, "select"@, k as nat),
            relations == matching(all, inner@, "relation"@, k as nat),
        decreases inner@.len() - k,
    {
        let index = inner[k];
        assert(all[index as int] == nodes@[index as int]@);
        assert(is_inner(index as int));
        let kind = nodes[index].kind.as_str();
        if is_combining(kind) {
            assert(reached(all, 0, index as int));
            return false;
        }
        if same_text(kind, "select") {
            selects += 1;
        }
        if same_text(kind, "relation") {
            relations += 1;
            if !has_object_reference(nodes, index) {
                assert(occurs(all, "relation"@, index as int));
                return false;
            }
        }
        k += 1;
    }
    proof {
        lemma_matching(all, inner@, "select"@);
        lemma_matching(all, inner@, "relation"@);
        assert forall|i: int| reached(all, 0, i) implies !combining(all[i].kind) by {
            assert(is_inner(i));
            let j = choose|j: int| 0 <= j < inner@.len() && inner@[j] == i;
            assert(!combining(all[inner@[j] as int].kind));
        }
        assert forall|i: int| occurs(all, "relation"@, i) implies names_object(all, i) by {
            assert(is_inner(i));
            let j = choose|j: int| 0 <= j < inner@.len() && inner@[j] == i;
            assert(names_object(all, inner@[j] as int));
        }
    }
    selects == 1 && relations == 1
}

/// How many of the first `count` listed nodes have the kind.
spec fn matching(
    nodes: Seq<SyntaxNodeView>,
    list: Seq<usize>,
    kind: Seq<char>,
    count: nat,
) -> nat
    decreases count,
{
    if count == 0 {
        0
    } else {
        matching(nodes, list, kind, (count - 1) as nat) + if nodes[list[count - 1] as int].kind
            == kind {
            1nat
        } else {
            0nat
        }
    }
}

proof fn lemma_matching(nodes: Seq<SyntaxNodeView>, list: Seq<usize>, kind: Seq<char>)
    requires
        positions(list) == selected(nodes.len(), |i: int| reached(nodes, 0, i)),
    ensures
        matching(nodes, list, kind, list.len()) == selected(
            nodes.len(),
            |i: int| occurs(nodes, kind, i),
        ).len(),
{
    lemma_matching_prefix(nodes, list, kind, nodes.len());
}

proof fn lemma_matching_prefix(
    nodes: Seq<SyntaxNodeView>,
    list: Seq<usize>,
    kind: Seq<char>,
    count: nat,
)
    requires
        count <= nodes.len(),
        selected(count, |i: int| reached(nodes, 0, i)).len() <= list.len(),
        forall|k: int|
            0 <= k < selected(count, |i: int| reached(nodes, 0, i)).len() ==> list[k] == selected(
                count,
                |i: int| reached(nodes, 0, i),
            )[k],
    ensures
        matching(nodes, list, kind, selected(count, |i: int| reached(nodes, 0, i)).len())
            == selected(count, |i: int| occurs(nodes, kind, i)).len(),
    decreases count,
{
    if count > 0 {
        let front = selected((count - 1) as nat, |i: int| reached(nodes, 0, i));
        let whole = selected(count, |i: int| reached(nodes, 0, i));
        assert forall|k: int| 0 <= k < front.len() implies list[k] == front[k] by {
            assert(whole[k] == front[k]);
        }
        lemma_matching_prefix(nodes, list, kind, (count - 1) as nat);
        if reached(nodes, 0, count - 1) {
            assert(whole == front.push(count - 1));
            assert(list[front.len() as int] == whole[front.len() as int]);
        }
    }
}

/// The only statement of a text, where it reads rows and can be fetched page by page.
///
/// Statement boundaries come from the grammar, and not from guesses around comments, strings or
/// semicolons. Unsupported grammar and writes give none.
pub fn select_statement(sql: &str) -> (statement: Option<String>)
    ensures
        statement.deep_view() == (match syntax_tree(sql@) {
            Some(nodes) => read_text(nodes),
            None => None,
        }),
        statement matches Some(text) ==> contains_text(sql@, text@),
{
    match parse_sql(sql) {
        Some(nodes) => {
            let statement = single_read_text(&nodes);
            proof {
                let all = nodes.deep_view();
                if statement is Some {
                    let s = choose|s: int| single_read(all, s);
                    assert(all[s] == nodes@[s]@);
                    assert(contains_text(sql@, nodes@[s].text@));
                }
            }
            statement
        },
        None => None,
    }
}

/// Whether the rows of a query directly represent the rows of one table. Unknown shapes do not.
pub fn supported(sql: &str) -> (result: bool)
    ensures
        result == (match syntax_tree(sql@) {
            Some(nodes) => one_table_read(nodes),
            None => false,
        }),
{
    match parse_sql(sql) {
        Some(nodes) => reads_one_table(&nodes),
        None => false,
    }
}

} // verus!
