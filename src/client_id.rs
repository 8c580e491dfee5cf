use vstd::prelude::*;

use crate::error::ScloudError;
use crate::text::{chars_of, matches_at, occurs_at, slice_string, starts_with, ends_with, string_of};

verus! {

/// The text that opens each externally hosted script reference of the landing page.
pub open spec fn script_open() -> Seq<char> {
    "<script crossorigin src=\""@
}

/// The text that closes such a reference.
pub open spec fn script_close() -> Seq<char> {
    "\"></script>"@
}

/// The text that opens the client id literal in a bundled script.
pub open spec fn client_id_open() -> Seq<char> {
    "client_id:\""@
}

/// The pieces of `s` between occurrences of `sep`, scanning from the front.
pub open spec fn split_spec(s: Seq<char>, sep: Seq<char>) -> Seq<Seq<char>>
    decreases s.len(),
{
    if s.len() == 0 {
        seq![Seq::empty()]
    } else if sep.len() > 0 && occurs_at(s, sep, 0) {
        seq![Seq::<char>::empty()] + split_spec(s.subrange(sep.len() as int, s.len() as int), sep)
    } else {
        let rest = split_spec(s.drop_first(), sep);
        rest.update(0, seq![s[0]] + rest[0])
    }
}

/// The first piece of `pieces` with `cur` put in front of it.
pub open spec fn join_first(cur: Seq<char>, pieces: Seq<Seq<char>>) -> Seq<Seq<char>> {
    pieces.update(0, cur + pieces[0])
}

pub proof fn lemma_split_nonempty(s: Seq<char>, sep: Seq<char>)
    ensures
        split_spec(s, sep).len() >= 1,
    decreases s.len(),
{
    if s.len() == 0 {
    } else if sep.len() > 0 && occurs_at(s, sep, 0) {
        lemma_split_nonempty(s.subrange(sep.len() as int, s.len() as int), sep);
    } else {
        lemma_split_nonempty(s.drop_first(), sep);
    }
}

/// Splits `s` at each occurrence of `sep`.
pub fn split_chars(s: &Vec<char>, sep: &Vec<char>) -> (r: Vec<String>)
    ensures
        r@.map_values(|p: String| p@) == split_spec(s@, sep@),
{
    let mut done: Vec<String> = Vec::new();
    let mut cur: Vec<char> = Vec::new();
    let mut i: usize = 0;
    proof {
        assert(s@.subrange(0, s@.len() as int) =~= s@);
        lemma_split_nonempty(s@, sep@);
        assert(join_first(cur@, split_spec(s@, sep@)) =~= split_spec(s@, sep@));
    }
    while i < s.len()
        invariant
            i <= s.len(),
            split_spec(s@, sep@) == done@.map_values(|p: String| p@) + join_first(
                cur@,
                split_spec(s@.subrange(i as int, s@.len() as int), sep@),
            ),
        decreases s.len() - i,
    {
        let ghost rest = s@.subrange(i as int, s@.len() as int);
        let ghost before = done@.map_values(|p: String| p@);
        if sep.len() > 0 && matches_at(s, sep, i) {
            proof {
                assert(rest.subrange(0, sep@.len() as int) =~= s@.subrange(i as int, i + sep@.len()));
                assert(occurs_at(rest, sep@, 0));
                let after = s@.subrange(i + sep@.len(), s@.len() as int);
                assert(rest.subrange(sep@.len() as int, rest.len() as int) =~= after);
                lemma_split_nonempty(after, sep@);
            }
            let piece = string_of(cur.as_slice());
            done.push(piece);
            cur = Vec::new();
            i = i + sep.len();
            proof {
                let after = s@.subrange(i as int, s@.len() as int);
                assert(done@.map_values(|p: String| p@) =~= before.push(piece@));
                assert(join_first(cur@, split_spec(after, sep@)) =~= split_spec(after, sep@));
                assert(split_spec(rest, sep@) =~= seq![Seq::<char>::empty()] + split_spec(after, sep@));
                assert(join_first(piece@, split_spec(rest, sep@)) =~= seq![piece@] + split_spec(after, sep@));
                assert(before + join_first(piece@, split_spec(rest, sep@)) =~= before.push(piece@) + split_spec(after, sep@));
            }
        } else {
            proof {
                if sep@.len() > 0 && i + sep@.len() <= s@.len() {
                    assert(rest.subrange(0, sep@.len() as int) =~= s@.subrange(i as int, i + sep@.len()));
                }
                assert(!(sep@.len() > 0 && occurs_at(rest, sep@, 0)));
                let after = s@.subrange(i + 1, s@.len() as int);
                assert(rest.drop_first() =~= after);
                lemma_split_nonempty(after, sep@);
            }
            let ghost old_cur = cur@;
            cur.push(s[i]);
            i = i + 1;
            proof {
                let after = s@.subrange(i as int, s@.len() as int);
                let r2 = split_spec(after, sep@);
                assert(split_spec(rest, sep@) == r2.update(0, seq![s@[i - 1]] + r2[0]));
                assert(old_cur + (seq![s@[i - 1]] + r2[0]) =~= cur@ + r2[0]);
                assert(join_first(old_cur, split_spec(rest, sep@)) =~= join_first(cur@, r2));
            }
        }
    }
    let ghost before = done@.map_values(|p: String| p@);
    let last = string_of(cur.as_slice());
    done.push(last);
    proof {
        assert(s@.subrange(i as int, s@.len() as int) =~= Seq::<char>::empty());
        assert(done@.map_values(|p: String| p@) =~= before.push(last@));
        assert(join_first(cur@, seq![Seq::<char>::empty()]) =~= seq![last@]);
        assert(before + seq![last@] =~= before.push(last@));
    }
    done
}

} // verus!

verus! {

/// Whether a text is an `https://` address of a `.js` file on one line: what the
/// pattern `^(https://).*(js)$` accepts.
pub open spec fn script_link(s: Seq<char>) -> bool {
    &&& s.len() >= 10
    &&& starts_with(s, "https://"@)
    &&& ends_with(s, "js"@)
    &&& forall|i: int| 8 <= i < s.len() - 2 ==> s[i] != '\n'
}

/// Relies on `regex::Regex::is_match` with the pattern `^(https://).*(js)$`:
/// without flags `.` takes any character but a line feed and `$` only the end.
#[verifier::external_body]
fn is_script_link(s: &str) -> (r: bool)
    ensures
        r == script_link(s@),
{
    regex::Regex::new(r"^(https://).*(js)$").map(|re| re.is_match(s)).unwrap_or(false)
}

/// The leftmost text of the form `client_id:"<word characters>"` in a script.
pub uninterp spec fn client_id_match(text: Seq<char>) -> Option<Seq<char>>;

/// Relies on `regex::Regex::find` with the pattern `client_id:"\w+"`: the first
/// match, which depends on the text alone; a match is a piece of the text made
/// of the opening `client_id:"`, at least one word character and a quote.
#[verifier::external_body]
fn find_client_id_literal(text: &str) -> (r: Option<String>)
    ensures
        match r {
            Some(m) => client_id_match(text@) == Some(m@),
            None => client_id_match(text@) is None,
        },
        r matches Some(m) ==> starts_with(m@, client_id_open()) && m@.len() >= client_id_open().len() + 2
            && m@.last() == '"' && exists|i: int| occurs_at(text@, m@, i),
{
    let re = regex::Regex::new("client_id:\"\\w+\"").ok()?;
    re.find(text).map(|m| m.as_str().to_owned())
}

/// The part of a reference that comes before its closing text.
pub open spec fn link_of(piece: Seq<char>) -> Seq<char> {
    split_spec(piece, script_close())[0]
}

/// The links, in page order, that the pieces hold and that pass `script_link`.
pub open spec fn links_spec(pieces: Seq<Seq<char>>) -> Seq<Seq<char>>
    decreases pieces.len(),
{
    if pieces.len() == 0 {
        Seq::empty()
    } else {
        let done = links_spec(pieces.drop_last());
        if script_link(link_of(pieces.last())) {
            done.push(link_of(pieces.last()))
        } else {
            done
        }
    }
}

/// The candidate script URLs of a landing page.
pub open spec fn script_links_spec(page: Seq<char>) -> Seq<Seq<char>> {
    links_spec(split_spec(page, script_open()))
}

/// The token of a client id literal: what stands between its opening text and
/// its final quote.
pub open spec fn literal_token(m: Seq<char>) -> Option<Seq<char>> {
    if m.len() >= client_id_open().len() + 2 && starts_with(m, client_id_open()) && m.last() == '"' {
        Some(m.subrange(client_id_open().len() as int, m.len() - 1))
    } else {
        None
    }
}

/// The client id that a bundled script holds, if any.
pub open spec fn client_id_spec(text: Seq<char>) -> Option<Seq<char>> {
    match client_id_match(text) {
        None => None,
        Some(m) => literal_token(m),
    }
}

pub open spec fn opt_text_view(r: Option<String>) -> Option<Seq<char>> {
    match r {
        Some(s) => Some(s@),
        None => None,
    }
}

/// The candidate script URLs of a landing page, in page order.
pub fn script_links(page: &str) -> (r: Vec<String>)
    ensures
        r@.map_values(|s: String| s@) == script_links_spec(page@),
{
    let text = chars_of(page);
    let open = chars_of("<script crossorigin src=\"");
    let close = chars_of("\"></script>");
    let pieces = split_chars(&text, &open);
    let ghost pv = pieces@.map_values(|s: String| s@);
    let mut out: Vec<String> = Vec::new();
    let mut i: usize = 0;
    assert(pv.subrange(0, 0) =~= Seq::<Seq<char>>::empty());
    assert(out@.map_values(|s: String| s@) =~= Seq::<Seq<char>>::empty());
    while i < pieces.len()
        invariant
            i <= pieces.len(),
            pv == pieces@.map_values(|s: String| s@),
            pv == split_spec(page@, script_open()),
            close@ == script_close(),
            out@.map_values(|s: String| s@) == links_spec(pv.subrange(0, i as int)),
        decreases pieces.len() - i,
    {
        let piece = chars_of(pieces[i].as_str());
        let parts = split_chars(&piece, &close);
        proof {
            lemma_split_nonempty(piece@, close@);
        }
        let link = parts[0].clone();
        let ghost before = out@.map_values(|s: String| s@);
        proof {
            let next = pv.subrange(0, i as int + 1);
            assert(next.drop_last() =~= pv.subrange(0, i as int));
            assert(next.last() == piece@);
            assert(link@ == link_of(piece@));
        }
        if is_script_link(link.as_str()) {
            out.push(link);
            assert(out@.map_values(|s: String| s@) =~= before.push(link@));
        }
        i = i + 1;
    }
    assert(pv.subrange(0, i as int) =~= pv);
    out
}

/// The token of a client id literal, where it has the literal's shape.
pub fn client_id_from_literal(literal: &str) -> (r: Option<String>)
    ensures
        opt_text_view(r) == literal_token(literal@),
{
    let m = chars_of(literal);
    let open = chars_of("client_id:\"");
    if m.len() < 2 || m.len() - 2 < open.len() || !matches_at(&m, &open, 0) || m[m.len() - 1] != '"' {
        return None;
    }
    Some(slice_string(&m, open.len(), m.len() - 1))
}

/// The client id that a bundled script holds: the token of the first client id
/// literal in it.
pub fn get_client_id(text: &str) -> (r: Option<String>)
    ensures
        opt_text_view(r) == client_id_spec(text@),
        r is Some <==> client_id_match(text@) is Some,
{
    match find_client_id_literal(text) {
        None => None,
        Some(m) => client_id_from_literal(m.as_str()),
    }
}

} // verus!

verus! {

/// What the caller is to do next while looking for a client id.
#[derive(Debug)]
pub enum DiscoveryStep {
    /// Fetch this script and hand its text to `on_script`.
    Fetch(String),
    /// A client id was found.
    Found(String),
    /// No candidate script held a client id.
    Exhausted,
}

/// The search for a client id over the scripts of a landing page, one script
/// at a time, in page order; the first script that holds one decides.
#[derive(Debug)]
pub struct ClientIdDiscovery {
    pub candidates: Vec<String>,
    pub next: usize,
}

impl ClientIdDiscovery {
    pub open spec fn wf(&self) -> bool {
        self.next <= self.candidates.len()
    }

    /// The step that the state asks for: fetch the next candidate, or give up.
    pub open spec fn step_spec(&self, r: DiscoveryStep) -> bool {
        if self.next < self.candidates.len() {
            r matches DiscoveryStep::Fetch(u) && u@ == self.candidates@[self.next as int]@
        } else {
            r is Exhausted
        }
    }

    /// Starts the search over the script references of a landing page.
    pub fn new(landing_page: &str) -> (r: ClientIdDiscovery)
        ensures
            r.wf(),
            r.next == 0,
            r.candidates@.map_values(|s: String| s@) == script_links_spec(landing_page@),
    {
        ClientIdDiscovery { candidates: script_links(landing_page), next: 0 }
    }

    /// The step to take now.
    pub fn step(&self) -> (r: DiscoveryStep)
        requires
            self.wf(),
        ensures
            self.step_spec(r),
    {
        if self.next < self.candidates.len() {
            DiscoveryStep::Fetch(self.candidates[self.next].clone())
        } else {
            DiscoveryStep::Exhausted
        }
    }

    /// Takes the text of the script last asked for: a client id in it ends the
    /// search, else the search moves on to the next candidate.
    pub fn on_script(&mut self, script_text: &str) -> (r: DiscoveryStep)
        requires
            old(self).wf(),
        ensures
            final(self).wf(),
            final(self).candidates == old(self).candidates,
            match client_id_spec(script_text@) {
                Some(id) => r matches DiscoveryStep::Found(f) && f@ == id && final(self).next
                    == old(self).next,
                None => final(self).next == (if old(self).next < old(self).candidates.len() {
                    old(self).next + 1
                } else {
                    old(self).next as int
                }) && final(self).step_spec(r),
            },
    {
        match get_client_id(script_text) {
            Some(id) => DiscoveryStep::Found(id),
            None => {
                if self.next < self.candidates.len() {
                    self.next = self.next + 1;
                }
                self.step()
            },
        }
    }

    /// The error that ends an exhausted search.
    pub fn exhausted_error() -> (r: ScloudError)
        ensures
            r.fault() == crate::error::Fault::NoClientId,
    {
        ScloudError::NoClientId
    }
}

} // verus!
