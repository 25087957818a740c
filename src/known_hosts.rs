//! The application's own known-hosts file: one `host type key [comment]`
//! entry per line.

use vstd::prelude::*;
use vstd::string::StrSliceExecFns;

use crate::text::{append_str, owned, push_char, same_text};

verus! {

/// Characters with the Unicode `White_Space` property, as
/// `char::is_whitespace` documents them.
pub open spec fn white_space(c: char) -> bool {
    ('\u{9}' <= c && c <= '\u{d}') || c == ' ' || c == '\u{85}' || c == '\u{a0}' || c == '\u{1680}'
        || ('\u{2000}' <= c && c <= '\u{200a}') || c == '\u{2028}' || c == '\u{2029}' || c
        == '\u{202f}' || c == '\u{205f}' || c == '\u{3000}'
}

/// Whether `c` is white space.
pub fn is_white_space(c: char) -> (r: bool)
    ensures
        r == white_space(c),
{
    ('\u{9}' <= c && c <= '\u{d}') || c == ' ' || c == '\u{85}' || c == '\u{a0}' || c == '\u{1680}'
        || ('\u{2000}' <= c && c <= '\u{200a}') || c == '\u{2028}' || c == '\u{2029}' || c
        == '\u{202f}' || c == '\u{205f}' || c == '\u{3000}'
}

/// The words finished so far and the word being read, after `s`.
pub open spec fn split_state(s: Seq<char>) -> (Seq<Seq<char>>, Seq<char>)
    decreases s.len(),
{
    if s.len() == 0 {
        (seq![], seq![])
    } else {
        let (ws, cur) = split_state(s.drop_last());
        if white_space(s.last()) {
            if cur.len() > 0 {
                (ws.push(cur), seq![])
            } else {
                (ws, seq![])
            }
        } else {
            (ws, cur.push(s.last()))
        }
    }
}

/// The maximal runs of non-white-space characters of `s`, in order.
pub open spec fn words(s: Seq<char>) -> Seq<Seq<char>> {
    let (ws, cur) = split_state(s);
    if cur.len() > 0 {
        ws.push(cur)
    } else {
        ws
    }
}

/// The words of `s`.
pub fn split_words(s: &str) -> (r: Vec<String>)
    ensures
        r@.len() == words(s@).len(),
        forall|i: int| 0 <= i < r@.len() ==> #[trigger] r@[i]@ == words(s@)[i],
{
    let n = s.unicode_len();
    let mut ws: Vec<String> = Vec::new();
    let mut cur = String::new();
    let mut i: usize = 0;
    assert(s@.subrange(0, 0) =~= Seq::<char>::empty());
    while i < n
        invariant
            n == s@.len(),
            i <= n,
            ws@.len() == split_state(s@.subrange(0, i as int)).0.len(),
            forall|k: int| 0 <= k < ws@.len() ==> #[trigger] ws@[k]@ == split_state(
                s@.subrange(0, i as int),
            ).0[k],
            cur@ == split_state(s@.subrange(0, i as int)).1,
        decreases n - i,
    {
        let c = s.get_char(i);
        assert(s@.subrange(0, i + 1).drop_last() =~= s@.subrange(0, i as int));
        assert(s@.subrange(0, i + 1).last() == c);
        if is_white_space(c) {
            if cur.as_str().unicode_len() > 0 {
                ws.push(cur);
                cur = String::new();
            } else {
                cur = String::new();
            }
        } else {
            push_char(&mut cur, c);
        }
        i = i + 1;
    }
    assert(s@.subrange(0, n as int) =~= s@);
    if cur.as_str().unicode_len() > 0 {
        ws.push(cur);
    }
    ws
}

/// An entry of a known-hosts file.
#[derive(Debug, Clone)]
pub struct KnownHostEntry {
    /// Host name or address (possibly hashed).
    pub host: String,
    /// Key type, such as `ssh-ed25519`.
    pub key_type: String,
    /// The base64-encoded public key.
    pub key: String,
    /// Comment.
    pub comment: Option<String>,
}

/// A line is an entry when it has at least three words and its first word
/// does not start a comment.
pub open spec fn is_entry_line(line: Seq<char>) -> bool {
    let w = words(line);
    w.len() >= 3 && w[0][0] != '#'
}

/// `host type key`, then ` comment` when there is one.
pub open spec fn entry_text(e: KnownHostEntry) -> Seq<char> {
    e.host@ + " "@ + e.key_type@ + " "@ + e.key@ + match e.comment {
        Some(c) => " "@ + c@,
        None => seq![],
    }
}

impl KnownHostEntry {
    /// Reads a known-hosts line. Empty lines, comments and lines with fewer
    /// than three words give `None`; a fourth word is the comment, later
    /// words are dropped.
    pub fn parse(line: &str) -> (r: Option<KnownHostEntry>)
        ensures
            r is Some <==> is_entry_line(line@),
            r matches Some(e) ==> {
                let w = words(line@);
                &&& e.host@ == w[0]
                &&& e.key_type@ == w[1]
                &&& e.key@ == w[2]
                &&& (w.len() > 3 ==> (e.comment matches Some(c) && c@ == w[3]))
                &&& (w.len() == 3 ==> e.comment is None)
            },
    {
        let parts = split_words(line);
        if parts.len() < 3 {
            return None;
        }
        assert(parts@[0]@ == words(line@)[0]);
        assert(parts@[0]@.len() > 0) by {
            lemma_words_nonempty(line@);
        }
        if parts[0].as_str().get_char(0) == '#' {
            return None;
        }
        let comment = if parts.len() > 3 {
            Some(parts[3].clone())
        } else {
            None
        };
        Some(KnownHostEntry {
            host: parts[0].clone(),
            key_type: parts[1].clone(),
            key: parts[2].clone(),
            comment,
        })
    }

    /// The entry as a known-hosts line.
    pub fn to_line(&self) -> (r: String)
        ensures
            r@ == entry_text(*self),
    {
        let mut s = self.host.clone();
        append_str(&mut s, " ");
        append_str(&mut s, self.key_type.as_str());
        append_str(&mut s, " ");
        append_str(&mut s, self.key.as_str());
        match &self.comment {
            Some(c) => {
                append_str(&mut s, " ");
                append_str(&mut s, c.as_str());
            },
            None => {},
        }
        s
    }
}

/// Every word is non-empty.
pub proof fn lemma_words_nonempty(s: Seq<char>)
    ensures
        forall|i: int| 0 <= i < words(s).len() ==> words(s)[i].len() > 0,
{
    lemma_split_words_nonempty(s);
}

proof fn lemma_split_words_nonempty(s: Seq<char>)
    ensures
        forall|i: int| 0 <= i < split_state(s).0.len() ==> split_state(s).0[i].len() > 0,
    decreases s.len(),
{
    if s.len() > 0 {
        lemma_split_words_nonempty(s.drop_last());
        let (ws, cur) = split_state(s.drop_last());
        assert forall|i: int| 0 <= i < split_state(s).0.len() implies split_state(s).0[i].len()
            > 0 by {
            if i < ws.len() {
                assert(split_state(s).0[i] == ws[i]);
            }
        }
    }
}

/// What an entry holds, as text.
pub struct EntryView {
    pub host: Seq<char>,
    pub key_type: Seq<char>,
    pub key: Seq<char>,
    pub comment: Option<Seq<char>>,
}

/// What an entry holds, as text.
pub open spec fn entry_view(e: KnownHostEntry) -> EntryView {
    EntryView {
        host: e.host@,
        key_type: e.key_type@,
        key: e.key@,
        comment: match e.comment {
            Some(c) => Some(c@),
            None => None,
        },
    }
}

/// The entry a line holds, if any.
pub open spec fn parsed(line: Seq<char>) -> Option<EntryView> {
    let w = words(line);
    if is_entry_line(line) {
        Some(
            EntryView {
                host: w[0],
                key_type: w[1],
                key: w[2],
                comment: if w.len() > 3 {
                    Some(w[3])
                } else {
                    None
                },
            },
        )
    } else {
        None
    }
}

/// `es` with the entry `o`, if any, added last.
pub open spec fn add_parsed(es: Seq<EntryView>, o: Option<EntryView>) -> Seq<EntryView> {
    match o {
        Some(v) => es.push(v),
        None => es,
    }
}

/// The entries of the complete lines of `s`, and the line being read.
pub open spec fn line_state(s: Seq<char>) -> (Seq<EntryView>, Seq<char>)
    decreases s.len(),
{
    if s.len() == 0 {
        (seq![], seq![])
    } else {
        let (es, cur) = line_state(s.drop_last());
        if s.last() == '\n' {
            (add_parsed(es, parsed(cur)), seq![])
        } else {
            (es, cur.push(s.last()))
        }
    }
}

/// The entries of the lines of a known-hosts text, in order.
pub open spec fn text_entries(s: Seq<char>) -> Seq<EntryView> {
    add_parsed(line_state(s).0, parsed(line_state(s).1))
}

/// The views of a sequence of entries.
pub open spec fn entry_views(es: Seq<KnownHostEntry>) -> Seq<EntryView> {
    es.map_values(|e: KnownHostEntry| entry_view(e))
}

/// The entries without those for `host`, in order.
pub open spec fn without_host(es: Seq<KnownHostEntry>, host: Seq<char>) -> Seq<KnownHostEntry>
    decreases es.len(),
{
    if es.len() == 0 {
        es
    } else if es.last().host@ == host {
        without_host(es.drop_last(), host)
    } else {
        without_host(es.drop_last(), host).push(es.last())
    }
}

/// The lines of the entries, joined by newlines.
pub open spec fn joined(es: Seq<KnownHostEntry>) -> Seq<char>
    decreases es.len(),
{
    if es.len() == 0 {
        seq![]
    } else if es.len() == 1 {
        entry_text(es[0])
    } else {
        joined(es.drop_last()) + "\n"@ + entry_text(es.last())
    }
}

fn parse_view(line: &str) -> (r: Option<KnownHostEntry>)
    ensures
        match r {
            Some(e) => parsed(line@) == Some(entry_view(e)),
            None => parsed(line@) is None,
        },
{
    let r = KnownHostEntry::parse(line);
    match &r {
        Some(e) => {
            assert(parsed(line@) =~= Some(entry_view(*e)));
        },
        None => {},
    }
    r
}

fn push_parsed(es: &mut Vec<KnownHostEntry>, line: &str)
    ensures
        entry_views(final(es)@) == add_parsed(entry_views(old(es)@), parsed(line@)),
{
    match parse_view(line) {
        Some(e) => {
            es.push(e);
            assert(entry_views(es@) =~= entry_views(old(es)@).push(entry_view(e)));
        },
        None => {},
    }
}

/// The entries of an application known-hosts file, with the path it lives at.
pub struct KnownHostsManager {
    path: String,
    entries: Vec<KnownHostEntry>,
}

impl KnownHostsManager {
    /// The file's path.
    pub closed spec fn file(&self) -> Seq<char> {
        self.path@
    }

    /// The entries, in order.
    pub closed spec fn items(&self) -> Seq<KnownHostEntry> {
        self.entries@
    }

    /// No entries yet, for the file at `path`.
    pub fn new(path: &str) -> (r: KnownHostsManager)
        ensures
            r.file() == path@,
            r.items().len() == 0,
    {
        KnownHostsManager { path: owned(path), entries: Vec::new() }
    }

    /// Replaces the entries by those of the file text `content`.
    pub fn load_text(&mut self, content: &str)
        ensures
            final(self).file() == old(self).file(),
            entry_views(final(self).items()) == text_entries(content@),
    {
        let n = content.unicode_len();
        let mut es: Vec<KnownHostEntry> = Vec::new();
        let mut cur = String::new();
        let mut i: usize = 0;
        assert(content@.subrange(0, 0) =~= Seq::<char>::empty());
        assert(entry_views(es@) =~= Seq::<EntryView>::empty());
        while i < n
            invariant
                n == content@.len(),
                i <= n,
                entry_views(es@) == line_state(content@.subrange(0, i as int)).0,
                cur@ == line_state(content@.subrange(0, i as int)).1,
            decreases n - i,
        {
            let c = content.get_char(i);
            assert(content@.subrange(0, i + 1).drop_last() =~= content@.subrange(0, i as int));
            if c == '\n' {
                push_parsed(&mut es, cur.as_str());
                cur = String::new();
            } else {
                push_char(&mut cur, c);
            }
            i = i + 1;
        }
        assert(content@.subrange(0, n as int) =~= content@);
        push_parsed(&mut es, cur.as_str());
        self.entries = es;
    }

    /// The file text: one line per entry, joined by newlines.
    pub fn to_text(&self) -> (r: String)
        ensures
            r@ == joined(self.items()),
    {
        let mut s = String::new();
        let mut i: usize = 0;
        while i < self.entries.len()
            invariant
                i <= self.entries@.len(),
                s@ == joined(self.entries@.subrange(0, i as int)),
            decreases self.entries@.len() - i,
        {
            let line = self.entries[i].to_line();
            let ghost pre = self.entries@.subrange(0, i as int);
            assert(self.entries@.subrange(0, i + 1).drop_last() =~= pre);
            if i > 0 {
                append_str(&mut s, "\n");
            } else {
                assert(s@ =~= Seq::<char>::empty());
            }
            append_str(&mut s, line.as_str());
            i = i + 1;
            proof {
                let cur = self.entries@.subrange(0, i as int);
                if i == 1 {
                    assert(s@ =~= entry_text(cur[0]));
                } else {
                    assert(s@ =~= joined(cur.drop_last()) + "\n"@ + entry_text(cur.last()));
                }
            }
        }
        assert(self.entries@.subrange(0, i as int) =~= self.entries@);
        s
    }

    /// Adds `entry`, replacing any earlier entry for the same host.
    pub fn add(&mut self, entry: KnownHostEntry)
        ensures
            final(self).file() == old(self).file(),
            final(self).items() == without_host(old(self).items(), entry.host@).push(entry),
    {
        self.remove(entry.host.as_str());
        self.entries.push(entry);
    }

    /// Removes the entries for `host`.
    pub fn remove(&mut self, host: &str)
        ensures
            final(self).file() == old(self).file(),
            final(self).items() == without_host(old(self).items(), host@),
    {
        let mut kept: Vec<KnownHostEntry> = Vec::new();
        let mut i: usize = 0;
        assert(self.entries@.subrange(0, 0) =~= Seq::<KnownHostEntry>::empty());
        while i < self.entries.len()
            invariant
                i <= self.entries@.len(),
                self.entries == old(self).entries,
                self.path == old(self).path,
                kept@ == without_host(self.entries@.subrange(0, i as int), host@),
            decreases self.entries@.len() - i,
        {
            assert(self.entries@.subrange(0, i + 1).drop_last() =~= self.entries@.subrange(0, i as int));
            if !same_text(self.entries[i].host.as_str(), host) {
                kept.push(self.entries[i].clone_entry());
            }
            i = i + 1;
        }
        assert(self.entries@.subrange(0, i as int) =~= self.entries@);
        self.entries = kept;
    }

    /// Whether some entry is for `host`.
    pub fn is_known(&self, host: &str) -> (r: bool)
        ensures
            r == exists|i: int| 0 <= i < self.items().len() && #[trigger] self.items()[i].host@ == host@,
    {
        self.get(host).is_some()
    }

    /// The first entry for `host`.
    pub fn get(&self, host: &str) -> (r: Option<&KnownHostEntry>)
        ensures
            match r {
                Some(e) => exists|i: int|
                    0 <= i < self.items().len() && self.items()[i] == *e && e.host@ == host@
                        && forall|j: int| 0 <= j < i ==> #[trigger] self.items()[j].host@ != host@,
                None => forall|i: int| 0 <= i < self.items().len() ==> #[trigger] self.items()[i].host@ != host@,
            },
    {
        let mut i: usize = 0;
        while i < self.entries.len()
            invariant
                i <= self.entries@.len(),
                forall|j: int| 0 <= j < i ==> #[trigger] self.entries@[j].host@ != host@,
            decreases self.entries@.len() - i,
        {
            if same_text(self.entries[i].host.as_str(), host) {
                return Some(&self.entries[i]);
            }
            i = i + 1;
        }
        None
    }

    /// All entries, in order.
    pub fn entries(&self) -> (r: &[KnownHostEntry])
        ensures
            r@ == self.items(),
    {
        self.entries.as_slice()
    }

    /// The file's path.
    pub fn path(&self) -> (r: &str)
        ensures
            r@ == self.file(),
    {
        self.path.as_str()
    }
}

impl KnownHostEntry {
    /// An independent copy.
    pub fn clone_entry(&self) -> (r: KnownHostEntry)
        ensures
            r == *self,
    {
        KnownHostEntry {
            host: self.host.clone(),
            key_type: self.key_type.clone(),
            key: self.key.clone(),
            comment: match &self.comment {
                Some(c) => Some(c.clone()),
                None => None,
            },
        }
    }
}

/// Adding an entry for a host that is already known replaces the earlier
/// entry: afterwards exactly one entry is for that host, and it is the new one.
pub proof fn lemma_add_replaces(es: Seq<KnownHostEntry>, e: KnownHostEntry)
    ensures
        forall|i: int|
            0 <= i < without_host(es, e.host@).push(e).len() && (#[trigger] without_host(
                es,
                e.host@,
            ).push(e)[i]).host@ == e.host@ ==> i == without_host(es, e.host@).len(),
{
    lemma_without_host(es, e.host@);
}

/// No entry for `host` is left after removing it.
pub proof fn lemma_without_host(es: Seq<KnownHostEntry>, host: Seq<char>)
    ensures
        forall|i: int|
            0 <= i < without_host(es, host).len() ==> (#[trigger] without_host(es, host)[i]).host@
                != host,
    decreases es.len(),
{
    if es.len() > 0 {
        lemma_without_host(es.drop_last(), host);
        let sub = without_host(es.drop_last(), host);
        assert forall|i: int| 0 <= i < without_host(es, host).len() implies (
        #[trigger] without_host(es, host)[i]).host@ != host by {
            if i < sub.len() {
                assert(without_host(es, host)[i] == sub[i]);
            }
        }
    }
}

} // verus!
