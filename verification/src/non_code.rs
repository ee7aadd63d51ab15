//! What stands in the text and is no code: comments, the shebang, blank lines.

use crate::ast::{CommentStyle, NonCodeMeta, NonCodeNode, NonCodeValue};
use crate::model::{non_code_nodes_view, NonCodeMetaView, NonCodeNodeView, NonCodeValueView};
use crate::order::{ascending, sorted_keys};
use crate::text::{index_of, parse_index, trim, trimmed};
use std::collections::HashMap;
use vstd::prelude::*;
use vstd::std_specs::iter::IteratorSpec;
use vstd::string::{StringExecFns, StringSliceAdditionalSpecFns};
use vstd::utf8::encode_utf8;

verus! {

broadcast use vstd::std_specs::hash::group_hash_axioms;
impl NonCodeNodeView {
    /// Whether `pos` lies in the interval of the piece, both ends included.
    pub open spec fn contains(self, pos: usize) -> bool {
        self.start <= pos <= self.end
    }
}

/// Whether one of the pieces holds `pos`.
pub open spec fn some_contains(nodes: Seq<NonCodeNodeView>, pos: usize) -> bool {
    exists|i: int| 0 <= i < nodes.len() && (#[trigger] nodes[i]).contains(pos)
}

impl NonCodeValueView {
    /// The text of the comment or shebang; of a blank line, two line ends.
    pub open spec fn text(self) -> Seq<char> {
        match self {
            NonCodeValueView::Shebang { value } => value,
            NonCodeValueView::InlineComment { value, .. } => value,
            NonCodeValueView::BlockComment { value, .. } => value,
            NonCodeValueView::NewLineBlockComment { value, .. } => value,
            NonCodeValueView::NewLine => "\n\n"@,
        }
    }
}

/// A comment of one line, written on a line of its own behind `lead`, of the
/// text given, which is taken as it is: the text behind `// `, or a bare `//`
/// where the text is empty.
pub open spec fn line_comment(lead: Seq<char>, inner: Seq<char>) -> Seq<char> {
    if inner.len() == 0 {
        lead + "//\n"@
    } else {
        lead + "// "@ + inner + "\n"@
    }
}

impl NonCodeNodeView {
    /// The piece as it is written back into a text, at the given indentation.
    ///
    /// A shebang is followed by a blank line. A comment behind code keeps to its
    /// line. A comment on a line of its own is indented; where a blank line
    /// stood above it in the text, and it is not at the very start, the blank
    /// line is written again.
    pub open spec fn formatted(self, indentation: Seq<char>) -> Seq<char> {
        match self.value {
            NonCodeValueView::Shebang { value } => value + "\n\n"@,
            NonCodeValueView::InlineComment { value, style: CommentStyle::Line } => " // "@ + value
                + "\n"@,
            NonCodeValueView::InlineComment { value, style: CommentStyle::Block } => " /* "@ + value
                + " */"@,
            NonCodeValueView::BlockComment { value, style: CommentStyle::Block } => indentation
                + "/* "@ + value + " */"@,
            NonCodeValueView::BlockComment { value, style: CommentStyle::Line } => line_comment(
                indentation,
                trimmed(value),
            ),
            NonCodeValueView::NewLineBlockComment { value, style } => {
                let lead = if self.start == 0 {
                    indentation
                } else {
                    "\n\n"@ + indentation
                };
                match style {
                    CommentStyle::Block => lead + "/* "@ + value + " */\n"@,
                    CommentStyle::Line => line_comment(lead, trimmed(value)),
                }
            },
            NonCodeValueView::NewLine => "\n\n"@,
        }
    }
}

impl NonCodeMetaView {
    /// Whether there is no piece at all.
    pub open spec fn is_empty(self) -> bool {
        self.non_code_nodes.dom() =~= Set::<usize>::empty() && self.start.len() == 0
    }

    /// The pieces that follow the item with index `i`.
    pub open spec fn after(self, i: usize) -> Seq<NonCodeNodeView> {
        if self.non_code_nodes.contains_key(i) {
            self.non_code_nodes[i]
        } else {
            Seq::empty()
        }
    }

    /// Whether one of the pieces holds `pos`.
    pub open spec fn contains(self, pos: usize) -> bool {
        some_contains(self.start, pos) || exists|k: usize| #[trigger]
            self.non_code_nodes.contains_key(k) && some_contains(self.non_code_nodes[k], pos)
    }
}

/// A comment of one line behind `lead`, of the text given as it is: the
/// text of a comment once the white space at its two ends is taken away.
pub fn write_line_comment(lead: String, inner: &str) -> (text: String)
    ensures
        text@ == line_comment(lead@, inner@),
{
    let mut text = lead;
    if inner.is_empty() {
        text.append("//\n");
    } else {
        text.append("// ");
        text.append(inner);
        text.append("\n");
    }
    text
}

impl NonCodeNode {
    /// The interval of the piece holds `pos`, both ends included.
    pub fn contains(&self, pos: usize) -> (inside: bool)
        ensures
            inside == self@.contains(pos),
    {
        self.start <= pos && pos <= self.end
    }

    /// The text of the comment or shebang; of a blank line, two line ends.
    pub fn value(&self) -> (text: String)
        ensures
            text@ == self@.value.text(),
    {
        match &self.value {
            NonCodeValue::Shebang { value } => value.clone(),
            NonCodeValue::InlineComment { value, .. } => value.clone(),
            NonCodeValue::BlockComment { value, .. } => value.clone(),
            NonCodeValue::NewLineBlockComment { value, .. } => value.clone(),
            NonCodeValue::NewLine => "\n\n".to_owned(),
        }
    }

    /// The piece as it is written back into a text, at the given indentation.
    pub fn format(&self, indentation: &str) -> (text: String)
        ensures
            text@ == self@.formatted(indentation@),
    {
        match &self.value {
            NonCodeValue::Shebang { value } => {
                let mut text = value.clone();
                text.append("\n\n");
                text
            },
            NonCodeValue::InlineComment { value, style: CommentStyle::Line } => {
                let mut text = " // ".to_owned();
                text.append(value.as_str());
                text.append("\n");
                text
            },
            NonCodeValue::InlineComment { value, style: CommentStyle::Block } => {
                let mut text = " /* ".to_owned();
                text.append(value.as_str());
                text.append(" */");
                text
            },
            NonCodeValue::BlockComment { value, style: CommentStyle::Block } => {
                let mut text = indentation.to_owned();
                text.append("/* ");
                text.append(value.as_str());
                text.append(" */");
                text
            },
            NonCodeValue::BlockComment { value, style: CommentStyle::Line } => write_line_comment(
                indentation.to_owned(),
                trim(value.as_str()),
            ),
            NonCodeValue::NewLineBlockComment { value, style } => {
                let mut text = String::new();
                if self.start != 0 {
                    text.append("\n\n");
                }
                text.append(indentation);
                assert(text@ =~= if self.start == 0 {
                    indentation@
                } else {
                    "\n\n"@ + indentation@
                });
                match style {
                    CommentStyle::Block => {
                        text.append("/* ");
                        text.append(value.as_str());
                        text.append(" */\n");
                        text
                    },
                    CommentStyle::Line => write_line_comment(text, trim(value.as_str())),
                }
            },
            NonCodeValue::NewLine => "\n\n".to_owned(),
        }
    }
}

/// Whether one of the pieces of a list holds `pos`.
fn any_contains(nodes: &Vec<NonCodeNode>, pos: usize) -> (found: bool)
    ensures
        found == some_contains(non_code_nodes_view(*nodes), pos),
{
    let mut i: usize = 0;
    while i < nodes.len()
        invariant
            i <= nodes.len(),
            forall|j: int| 0 <= j < i ==> !(#[trigger] non_code_nodes_view(*nodes)[j]).contains(pos),
        decreases nodes.len() - i,
    {
        if nodes[i].contains(pos) {
            assert(non_code_nodes_view(*nodes)[i as int].contains(pos));
            return true;
        }
        i += 1;
    }
    false
}

impl NonCodeMeta {
    /// No pieces.
    pub fn new() -> (meta: Self)
        ensures
            meta@.is_empty(),
            meta@.digest is None,
    {
        NonCodeMeta { non_code_nodes: HashMap::new(), start: Vec::new(), digest: None }
    }

    /// Whether there is no piece at all.
    pub fn is_empty(&self) -> (empty: bool)
        ensures
            empty == self@.is_empty(),
    {
        let empty = self.non_code_nodes.is_empty() && self.start.is_empty();
        proof {
            assert(self@.non_code_nodes.dom() =~= self.non_code_nodes@.dom());
            if self.non_code_nodes@.is_empty() {
                assert(self.non_code_nodes@.dom() =~= Set::<usize>::empty());
            }
        }
        empty
    }

    /// Adds a piece behind those that follow the item with index `i`.
    pub fn insert(&mut self, i: usize, new: NonCodeNode)
        ensures
            final(self)@ == (NonCodeMetaView {
                non_code_nodes: old(self)@.non_code_nodes.insert(i, old(self)@.after(i).push(new@)),
                ..old(self)@
            }),
    {
        let mut nodes = match self.non_code_nodes.remove(&i) {
            Some(nodes) => nodes,
            None => Vec::new(),
        };
        assert(non_code_nodes_view(nodes) =~= old(self)@.after(i));
        nodes.push(new);
        assert(non_code_nodes_view(nodes) =~= old(self)@.after(i).push(new@));
        self.non_code_nodes.insert(i, nodes);
        assert(self@.non_code_nodes =~= old(self)@.non_code_nodes.insert(
            i,
            old(self)@.after(i).push(new@),
        ));
    }

    /// Whether one of the pieces holds `pos`.
    pub fn contains(&self, pos: usize) -> (found: bool)
        ensures
            found == self@.contains(pos),
    {
        if any_contains(&self.start, pos) {
            return true;
        }
        let ghost entries = vstd::std_specs::hash::spec_hash_map_iter(&self.non_code_nodes).remaining();
        let ghost mut seen: int = 0;
        let mut found = false;
        for entry in it: self.non_code_nodes.iter()
            invariant
                it.seq() == entries,
                seen == it.index(),
                found == exists|j: int|
                    0 <= j < seen && some_contains(
                        non_code_nodes_view(*(#[trigger] entries[j]).1),
                        pos,
                    ),
        {
            if any_contains(entry.1, pos) {
                found = true;
            }
            proof {
                seen = seen + 1;
            }
        }
        proof {
            let m = self.non_code_nodes@;
            assert(seen == entries.len());
            if found {
                let j = choose|j: int|
                    0 <= j < seen && some_contains(
                        non_code_nodes_view(*(#[trigger] entries[j]).1),
                        pos,
                    );
                let k = *entries[j].0;
                assert(m.contains_key(k) && m[k] == *entries[j].1);
                assert(self@.non_code_nodes.contains_key(k));
            }
            if self@.contains(pos) {
                let k = choose|k: usize| #[trigger]
                    self@.non_code_nodes.contains_key(k) && some_contains(
                        self@.non_code_nodes[k],
                        pos,
                    );
                assert(m.contains_key(k));
                assert(entries.contains((&k, &m[k])));
                let j = choose|j: int| 0 <= j < entries.len() && entries[j] == (&k, &m[k]);
                assert(some_contains(non_code_nodes_view(*entries[j].1), pos));
            }
        }
        found
    }
}

/// The number of pieces under the keys given.
pub open spec fn count_under(map: Map<usize, Seq<NonCodeNodeView>>, keys: Seq<usize>) -> nat
    decreases keys.len(),
{
    if keys.len() == 0 {
        0
    } else {
        count_under(map, keys.drop_last()) + if map.contains_key(keys.last()) {
            map[keys.last()].len()
        } else {
            0
        }
    }
}

/// The count under some of the keys is no more than the count under all.
proof fn lemma_count_grows(map: Map<usize, Seq<NonCodeNodeView>>, keys: Seq<usize>, count: int)
    requires
        0 <= count <= keys.len(),
    ensures
        count_under(map, keys.take(count)) <= count_under(map, keys),
    decreases keys.len() - count,
{
    if count < keys.len() {
        lemma_count_grows(map, keys, count + 1);
        assert(keys.take(count + 1).drop_last() =~= keys.take(count));
    } else {
        assert(keys.take(count) =~= keys);
    }
}

impl NonCodeMetaView {
    /// The number of pieces that follow items: all but those before the first
    /// item.
    pub open spec fn keyed_count(self) -> nat {
        count_under(self.non_code_nodes, ascending(self.non_code_nodes.dom()))
    }
}

/// A key of the pieces that follow items which is no index of an item. Held is
/// the key as it was written.
#[derive(Debug, PartialEq)]
pub struct InvalidKey(pub String);

/// What a list of pieces under keys written as text holds.
pub open spec fn text_entries_view(entries: Vec<(String, Vec<NonCodeNode>)>) -> Seq<
    (Seq<char>, Seq<NonCodeNodeView>),
> {
    Seq::new(entries.len() as nat, |i: int| (entries[i].0@, non_code_nodes_view(entries[i].1)))
}

/// The pieces under their keys as numbers, where every key written stands
/// for an index; else the place in the list of the first key that does not.
/// Of two entries whose keys stand for the same index, the later one stays.
pub open spec fn keyed_nodes(entries: Seq<(Seq<char>, Seq<NonCodeNodeView>)>) -> Result<
    Map<usize, Seq<NonCodeNodeView>>,
    int,
>
    decreases entries.len(),
{
    if entries.len() == 0 {
        Ok(Map::empty())
    } else {
        match keyed_nodes(entries.drop_last()) {
            Err(i) => Err(i),
            Ok(map) => match index_of(encode_utf8(entries.last().0)) {
                Some(k) => Ok(map.insert(k, entries.last().1)),
                None => Err(entries.len() - 1),
            },
        }
    }
}

impl NonCodeMeta {
    /// The number of pieces that follow items: all but those before the first
    /// item.
    pub fn non_code_nodes_len(&self) -> (count: usize)
        requires
            self@.keyed_count() <= usize::MAX,
        ensures
            count == self@.keyed_count(),
    {
        let keys = sorted_keys(&self.non_code_nodes);
        let ghost map = self@.non_code_nodes;
        assert(map.dom() =~= self.non_code_nodes@.dom());
        let mut count: usize = 0;
        let mut i: usize = 0;
        assert(keys@.take(0) =~= Seq::<usize>::empty());
        while i < keys.len()
            invariant
                i <= keys.len(),
                map == self@.non_code_nodes,
                keys@ == ascending(map.dom()),
                count_under(map, keys@) <= usize::MAX,
                count == count_under(map, keys@.take(i as int)),
            decreases keys.len() - i,
        {
            proof {
                lemma_count_grows(map, keys@, i + 1);
                assert(keys@.take(i + 1).drop_last() =~= keys@.take(i as int));
                assert(keys@.take(i + 1).last() == keys@[i as int]);
            }
            match self.non_code_nodes.get(&keys[i]) {
                Some(nodes) => {
                    count = count + nodes.len();
                },
                None => {},
            }
            i += 1;
        }
        assert(keys@.take(i as int) =~= keys@);
        count
    }

    /// The pieces under keys that are written as text, as a serial form holds
    /// them, with the pieces before the first item. Every key must stand for
    /// an index; the first that does not is returned as the error.
    pub fn from_text_keys(
        entries: Vec<(String, Vec<NonCodeNode>)>,
        start: Vec<NonCodeNode>,
    ) -> (meta: Result<NonCodeMeta, InvalidKey>)
        ensures
            match meta {
                Ok(m) => keyed_nodes(text_entries_view(entries)) == Ok::<_, int>(m@.non_code_nodes)
                    && m@.start == non_code_nodes_view(start) && m@.digest is None,
                Err(e) => keyed_nodes(text_entries_view(entries)) matches Err(i) && 0 <= i
                    < entries.len() && e.0@ == entries[i].0@,
            },
    {
        let ghost all = text_entries_view(entries);
        let ghost mut seen: int = 0;
        let mut meta = NonCodeMeta { non_code_nodes: HashMap::new(), start, digest: None };
        assert(all.take(0) =~= Seq::empty());
        assert(meta@.non_code_nodes =~= Map::empty());
        for entry in it: entries
            invariant
                all == text_entries_view(entries),
                it.seq() == entries@,
                seen == it.index(),
                meta.start == start,
                meta.digest is None,
                keyed_nodes(all.take(seen)) == Ok::<_, int>(meta@.non_code_nodes),
        {
            let ghost before = meta@.non_code_nodes;
            proof {
                assert(entry == entries@[seen]);
                assert(all.take(seen + 1).drop_last() =~= all.take(seen));
                assert(all.take(seen + 1).last() == all[seen]);
            }
            match parse_index(entry.0.as_str()) {
                Some(key) => {
                    let ghost nodes = non_code_nodes_view(entry.1);
                    meta.non_code_nodes.insert(key, entry.1);
                    assert(meta@.non_code_nodes =~= before.insert(key, nodes));
                },
                None => {
                    proof {
                        lemma_keyed_nodes_fails(all, seen);
                    }
                    return Err(InvalidKey(entry.0));
                },
            }
            proof {
                seen = seen + 1;
            }
        }
        assert(all.take(seen) =~= all);
        Ok(meta)
    }
}

/// Where the keys before the one at `at` stand for indices and that one does
/// not, it is the first that does not.
proof fn lemma_keyed_nodes_fails(entries: Seq<(Seq<char>, Seq<NonCodeNodeView>)>, at: int)
    requires
        0 <= at < entries.len(),
        keyed_nodes(entries.take(at)) is Ok,
        index_of(encode_utf8(entries[at].0)) is None,
    ensures
        keyed_nodes(entries) == Err::<Map<usize, Seq<NonCodeNodeView>>, int>(at),
    decreases entries.len() - at,
{
    let next = entries.take(at + 1);
    assert(next.drop_last() =~= entries.take(at));
    assert(next.last() == entries[at]);
    assert(keyed_nodes(next) == Err::<Map<usize, Seq<NonCodeNodeView>>, int>(at));
    lemma_keyed_nodes_stays_failed(entries, at + 1, at);
}

/// Once a key has failed, more entries do not change which one was first.
proof fn lemma_keyed_nodes_stays_failed(
    entries: Seq<(Seq<char>, Seq<NonCodeNodeView>)>,
    count: int,
    at: int,
)
    requires
        0 <= count <= entries.len(),
        keyed_nodes(entries.take(count)) == Err::<Map<usize, Seq<NonCodeNodeView>>, int>(at),
    ensures
        keyed_nodes(entries) == Err::<Map<usize, Seq<NonCodeNodeView>>, int>(at),
    decreases entries.len() - count,
{
    if count < entries.len() {
        assert(entries.take(count + 1).drop_last() =~= entries.take(count));
        lemma_keyed_nodes_stays_failed(entries, count + 1, at);
    } else {
        assert(entries.take(count) =~= entries);
    }
}

impl Default for NonCodeMeta {
    fn default() -> (meta: Self)
        ensures
            meta@.is_empty(),
            meta@.digest is None,
    {
        NonCodeMeta::new()
    }
}

} // verus!
