//! A streamed conversation with the model provider: which requests are active and may be
//! cancelled, and how the provider's event stream becomes the bounded text shown.

use vstd::prelude::*;
use crate::evidence::{field, get_field, Json};
use crate::text::{chars_of, push_char, take_chars, text_eq, trim, trimmed, utf8};

verus! {

/// The active conversation requests, each with the handle that cancels it.
pub struct RequestRegistry<T> {
    active: Vec<(String, T)>,
}

impl<T> RequestRegistry<T> {
    /// The IDs of the active requests.
    pub closed spec fn ids(&self) -> Seq<Seq<char>> {
        self.active@.map_values(|e: (String, T)| e.0@)
    }

    /// No request is active twice.
    pub closed spec fn wf(&self) -> bool {
        self.ids().no_duplicates()
    }

    /// Whether a request with this ID is active.
    pub open spec fn holds(&self, id: Seq<char>) -> bool {
        self.ids().contains(id)
    }

    /// The handle registered for an active request.
    pub closed spec fn handle_of(&self, id: Seq<char>) -> T {
        self.active@[self.index_of(id)].1
    }

    spec fn index_of(&self, id: Seq<char>) -> int {
        choose|i: int| 0 <= i < self.ids().len() && self.ids()[i] == id
    }

    proof fn lemma_handle_at(&self, i: int)
        requires
            self.wf(),
            0 <= i < self.active@.len(),
        ensures
            self.handle_of(self.active@[i].0@) == self.active@[i].1,
    {
        let id = self.active@[i].0@;
        assert(self.ids()[i] == id);
        let j = self.index_of(id);
        assert(0 <= j < self.ids().len() && self.ids()[j] == id);
        assert(j == i) by {
            if j != i {
                assert(self.ids()[i] != self.ids()[j]);
            }
        }
    }

    /// No request is active.
    pub fn new() -> (r: Self)
        ensures
            r.wf(),
            forall|k: Seq<char>| !r.holds(k),
    {
        RequestRegistry { active: Vec::new() }
    }

    fn position(&self, id: &str) -> (r: Option<usize>)
        ensures
            match r {
                Some(i) => i < self.ids().len() && self.ids()[i as int] == id@,
                None => !self.holds(id@),
            },
    {
        let mut i: usize = 0;
        while i < self.active.len()
            invariant
                i <= self.active@.len(),
                forall|k: int| 0 <= k < i ==> self.active@[k].0@ != id@,
            decreases self.active.len() - i,
        {
            if text_eq(self.active[i].0.as_str(), id) {
                return Some(i);
            }
            i = i + 1;
        }
        proof {
            assert forall|k: int| 0 <= k < self.ids().len() implies self.ids()[k] != id@ by {
                assert(self.ids()[k] == self.active@[k].0@);
            }
        }
        None
    }

    /// Whether a request with this ID is active.
    pub fn is_active(&self, id: &str) -> (r: bool)
        ensures
            r == self.holds(id@),
    {
        match self.position(id) {
            Some(i) => {
                proof {
                    assert(self.ids().contains(self.ids()[i as int]));
                }
                true
            },
            None => false,
        }
    }

    /// Registers a request with the handle that cancels it: its ID must have 1 to 128
    /// bytes and not be active already. Every other request keeps its handle.
    pub fn register(&mut self, id: &str, handle: T) -> (r: Result<(), String>)
        requires
            old(self).wf(),
        ensures
            final(self).wf(),
            (id@.len() == 0 || utf8(id@).len() > 128) ==> (r matches Err(e) && e@ == "Invalid request identifier"@),
            !(id@.len() == 0 || utf8(id@).len() > 128) && old(self).holds(id@) ==> (r matches Err(e)
                && e@ == "Request identifier is already active"@),
            r is Err ==> *final(self) == *old(self),
            r is Ok <==> !(id@.len() == 0 || utf8(id@).len() > 128) && !old(self).holds(id@),
            r is Ok ==> forall|k: Seq<char>| final(self).holds(k) <==> (old(self).holds(k) || k == id@),
            r is Ok ==> final(self).handle_of(id@) == handle,
            r is Ok ==> forall|k: Seq<char>| #[trigger] old(self).holds(k)
                ==> final(self).handle_of(k) == old(self).handle_of(k),
    {
        let bytes = id.as_bytes().len();
        proof {
            vstd::utf8::encode_utf8_decode_utf8(id@);
            if id@.len() == 0 {
                assert(id@ =~= Seq::<char>::empty());
            }
        }
        if bytes == 0 || bytes > 128 {
            return Err("Invalid request identifier".to_owned());
        }
        if self.is_active(id) {
            return Err("Request identifier is already active".to_owned());
        }
        let ghost before = self.ids();
        let ghost old_reg = *self;
        self.active.push((id.to_owned(), handle));
        proof {
            assert(self.ids() =~= before.push(id@));
            assert forall|k: Seq<char>| self.holds(k) <==> (before.contains(k) || k == id@) by {
                if before.contains(k) {
                    let w = choose|w: int| 0 <= w < before.len() && before[w] == k;
                    assert(self.ids()[w] == k);
                }
                if k == id@ {
                    assert(self.ids()[before.len() as int] == k);
                }
            }
            self.lemma_handle_at(before.len() as int);
            assert forall|k: Seq<char>| #[trigger] old_reg.holds(k) implies self.handle_of(k) == old_reg.handle_of(k) by {
                let w = choose|w: int| 0 <= w < before.len() && before[w] == k;
                assert(old_reg.ids()[w] == old_reg.active@[w].0@);
                old_reg.lemma_handle_at(w);
                self.lemma_handle_at(w);
            }
        }
        Ok(())
    }

    /// Ends a request: it is no longer active, and the handle it was registered with is
    /// given back if it was. Every other request keeps its handle.
    pub fn remove(&mut self, id: &str) -> (r: Option<T>)
        requires
            old(self).wf(),
        ensures
            final(self).wf(),
            r == (if old(self).holds(id@) { Some(old(self).handle_of(id@)) } else { None::<T> }),
            forall|k: Seq<char>| final(self).holds(k) <==> (old(self).holds(k) && k != id@),
            forall|k: Seq<char>| #[trigger] final(self).holds(k)
                ==> final(self).handle_of(k) == old(self).handle_of(k),
    {
        match self.position(id) {
            Some(i) => {
                let ghost before = self.ids();
                let ghost old_reg = *self;
                proof {
                    assert(self.ids()[i as int] == self.active@[i as int].0@);
                    self.lemma_handle_at(i as int);
                }
                let (_, handle) = self.active.remove(i);
                proof {
                    assert(self.ids() =~= before.remove(i as int));
                    assert(before.contains(before[i as int]));
                    assert forall|k: Seq<char>| self.holds(k) <==> (before.contains(k) && k != id@) by {
                        if self.holds(k) {
                            let w = choose|w: int| 0 <= w < self.ids().len() && self.ids()[w] == k;
                            let w0 = if w < i { w } else { w + 1 };
                            assert(before[w0] == k);
                            assert(w0 != i);
                        }
                        if before.contains(k) && k != id@ {
                            let w = choose|w: int| 0 <= w < before.len() && before[w] == k;
                            assert(w != i);
                            let w1 = if w < i { w } else { w - 1 };
                            assert(self.ids()[w1] == k);
                        }
                    }
                    assert forall|k: Seq<char>| #[trigger] self.holds(k) implies self.handle_of(k) == old_reg.handle_of(k) by {
                        let w = choose|w: int| 0 <= w < self.ids().len() && self.ids()[w] == k;
                        let w0 = if w < i { w } else { w + 1 };
                        assert(self.active@[w] == old_reg.active@[w0]);
                        assert(self.ids()[w] == self.active@[w].0@);
                        self.lemma_handle_at(w);
                        old_reg.lemma_handle_at(w0);
                    }
                }
                Some(handle)
            },
            None => {
                proof {
                    assert forall|k: Seq<char>| self.holds(k) <==> (self.holds(k) && k != id@) by {}
                }
                None
            },
        }
    }
}

/// What one line of the provider's event stream asks for.
#[derive(Debug, Clone)]
pub enum StreamLine {
    /// Not a data line: skip it.
    Skip,
    /// The provider is done.
    Done,
    /// A data payload, still to be parsed as JSON.
    Data(String),
}

/// A line without its trailing carriage returns.
pub open spec fn strip_cr(s: Seq<char>) -> Seq<char>
    decreases s.len(),
{
    if s.len() > 0 && s.last() == '\r' {
        strip_cr(s.drop_last())
    } else {
        s
    }
}

/// The payload of a data line.
pub open spec fn payload_of(line: Seq<char>) -> Seq<char> {
    strip_cr(line).skip(6)
}

/// Reads one line of the event stream.
pub fn stream_line(line: &str) -> (r: StreamLine)
    ensures
        ({
            let l = strip_cr(line@);
            if l.len() >= 6 && l.take(6) == "data: "@ {
                if payload_of(line@) == "[DONE]"@ {
                    r is Done
                } else {
                    r matches StreamLine::Data(p) && p@ == payload_of(line@)
                }
            } else {
                r is Skip
            }
        }),
{
    let chars = chars_of(line);
    let mut end: usize = chars.len();
    proof {
        assert(chars@.take(end as int) =~= chars@);
    }
    while end > 0 && chars[end - 1] == '\r'
        invariant
            chars@ == line@,
            end <= chars@.len(),
            strip_cr(line@) == strip_cr(chars@.take(end as int)),
        decreases end,
    {
        assert(chars@.take(end as int).drop_last() =~= chars@.take(end as int - 1));
        end = end - 1;
    }
    let ghost l = chars@.take(end as int);
    assert(strip_cr(l) == l);
    proof {
        reveal_strlit("data: ");
        reveal_strlit("[DONE]");
    }
    if end < 6 || chars[0] != 'd' || chars[1] != 'a' || chars[2] != 't' || chars[3] != 'a'
        || chars[4] != ':' || chars[5] != ' ' {
        proof {
            if l.len() >= 6 && l.take(6) == "data: "@ {
                assert(l.take(6)[0] == l[0]);
                assert(l.take(6)[1] == l[1]);
                assert(l.take(6)[2] == l[2]);
                assert(l.take(6)[3] == l[3]);
                assert(l.take(6)[4] == l[4]);
                assert(l.take(6)[5] == l[5]);
            }
        }
        return StreamLine::Skip;
    }
    assert(l.take(6) =~= "data: "@);
    let mut payload = String::new();
    let mut i: usize = 6;
    while i < end
        invariant
            chars@ == line@,
            6 <= i <= end,
            end <= chars@.len(),
            payload@ == chars@.subrange(6, i as int),
        decreases end - i,
    {
        push_char(&mut payload, chars[i]);
        assert(payload@ =~= chars@.subrange(6, i as int + 1));
        i = i + 1;
    }
    assert(payload@ =~= payload_of(line@));
    if text_eq(payload.as_str(), "[DONE]") {
        StreamLine::Done
    } else {
        StreamLine::Data(payload)
    }
}

/// The reply text a parsed data payload carries: the text at `choices[0].delta.content`,
/// if there is text there.
pub open spec fn delta_text(payload: Json) -> Option<Seq<char>> {
    match field(payload, "choices"@) {
        Some(Json::Array(choices)) => if choices@.len() > 0 {
            match field(choices@[0], "delta"@) {
                Some(delta) => match field(delta, "content"@) {
                    Some(Json::Text(t)) => Some(t@),
                    _ => None,
                },
                None => None,
            }
        } else {
            None
        },
        _ => None,
    }
}

/// Reads the reply text out of a parsed data payload of the provider's stream.
pub fn delta_content(payload: &Json) -> (r: Option<String>)
    ensures
        match delta_text(*payload) {
            Some(t) => r matches Some(s) && s@ == t,
            None => r is None,
        },
{
    let choices = match get_field(payload, "choices") {
        Some(Json::Array(choices)) => choices,
        _ => return None,
    };
    if choices.len() == 0 {
        return None;
    }
    let delta = match get_field(&choices[0], "delta") {
        Some(d) => d,
        None => return None,
    };
    match get_field(delta, "content") {
        Some(Json::Text(t)) => Some(t.clone()),
        _ => None,
    }
}

/// The text of the stream received so far that does not yet end a line.
pub struct LineBuffer {
    text: Vec<char>,
}

/// Where the first newline of `s` stands, if it has one.
pub open spec fn first_newline(s: Seq<char>) -> Option<int>
    decreases s.len(),
{
    if s.len() == 0 {
        None
    } else if s[0] == '\n' {
        Some(0)
    } else {
        match first_newline(s.drop_first()) {
            Some(i) => Some(i + 1),
            None => None,
        }
    }
}

proof fn first_newline_is(s: Seq<char>, n: int)
    requires
        0 <= n <= s.len(),
        forall|i: int| 0 <= i < n ==> s[i] != '\n',
        n < s.len() ==> s[n] == '\n',
    ensures
        first_newline(s) == (if n < s.len() { Some(n) } else { None::<int> }),
    decreases n,
{
    if n > 0 {
        first_newline_is(s.drop_first(), n - 1);
    }
}

impl LineBuffer {
    /// The buffered text.
    pub closed spec fn pending(&self) -> Seq<char> {
        self.text@
    }

    /// An empty buffer.
    pub fn new() -> (b: Self)
        ensures
            b.pending() == Seq::<char>::empty(),
    {
        LineBuffer { text: Vec::new() }
    }

    /// Appends received text.
    pub fn push(&mut self, received: &str)
        ensures
            final(self).pending() == old(self).pending() + received@,
    {
        let chars = chars_of(received);
        let mut i: usize = 0;
        let ghost before = self.text@;
        while i < chars.len()
            invariant
                i <= chars@.len(),
                chars@ == received@,
                self.text@ == before + chars@.take(i as int),
            decreases chars.len() - i,
        {
            self.text.push(chars[i]);
            assert(self.text@ =~= before + chars@.take(i as int + 1));
            i = i + 1;
        }
        assert(chars@.take(chars@.len() as int) =~= chars@);
    }

    /// Takes the next complete line out of the buffer: the text before the first newline,
    /// leaving what follows it. Without a newline nothing is taken.
    pub fn next_line(&mut self) -> (r: Option<String>)
        ensures
            match first_newline(old(self).pending()) {
                Some(n) => {
                    &&& r matches Some(line) && line@ == old(self).pending().take(n)
                    &&& final(self).pending() == old(self).pending().skip(n + 1)
                },
                None => r is None && final(self).pending() == old(self).pending(),
            },
    {
        let mut n: usize = 0;
        while n < self.text.len() && self.text[n] != '\n'
            invariant
                n <= self.text@.len(),
                forall|i: int| 0 <= i < n ==> self.text@[i] != '\n',
            decreases self.text.len() - n,
        {
            n = n + 1;
        }
        proof {
            first_newline_is(self.text@, n as int);
        }
        if n == self.text.len() {
            return None;
        }
        let mut line = String::new();
        let mut i: usize = 0;
        while i < n
            invariant
                i <= n,
                n < self.text@.len(),
                line@ == self.text@.take(i as int),
            decreases n - i,
        {
            push_char(&mut line, self.text[i]);
            assert(line@ =~= self.text@.take(i as int + 1));
            i = i + 1;
        }
        let mut rest: Vec<char> = Vec::new();
        let mut j: usize = n + 1;
        while j < self.text.len()
            invariant
                n + 1 <= j <= self.text@.len(),
                rest@ == self.text@.subrange(n as int + 1, j as int),
            decreases self.text.len() - j,
        {
            rest.push(self.text[j]);
            assert(rest@ =~= self.text@.subrange(n as int + 1, j as int + 1));
            j = j + 1;
        }
        assert(rest@ =~= self.text@.skip(n as int + 1));
        self.text = rest;
        Some(line)
    }
}

/// How many characters of text a conversation shows at most.
pub open spec fn reply_budget() -> nat {
    1200
}

/// The next piece of reply text, given how many characters were already shown: at most
/// what the budget leaves, or nothing once it is spent.
pub open spec fn next_piece(shown: nat, text: Seq<char>) -> Option<Seq<char>> {
    if shown >= reply_budget() {
        None
    } else {
        Some(take_chars(text, (reply_budget() - shown) as nat))
    }
}

/// A text with each line feed turned into a space.
pub open spec fn one_line(s: Seq<char>) -> Seq<char>
    decreases s.len(),
{
    if s.len() == 0 {
        Seq::empty()
    } else {
        one_line(s.drop_last()).push(if s.last() == '\n' { ' ' } else { s.last() })
    }
}

/// One reply piece: the text kept, and the event-stream frame sent for it.
#[derive(Debug, Clone)]
pub struct ReplyPiece {
    pub text: String,
    pub frame: String,
}

/// Cuts the next piece of reply text to the budget and frames it as one event-stream data
/// event on a single line; nothing once the budget is spent.
pub fn next_reply_piece(shown: usize, text: &str) -> (r: Option<ReplyPiece>)
    ensures
        match next_piece(shown as nat, text@) {
            None => r is None,
            Some(t) => r matches Some(p) && p.text@ == t && p.frame@ == "data: "@ + one_line(t) + "\n\n"@,
        },
{
    if shown >= 1200 {
        return None;
    }
    let kept = crate::text::first_chars(text, 1200 - shown);
    let chars = chars_of(kept.as_str());
    let mut frame = "data: ".to_owned();
    let ghost start = frame@;
    let mut i: usize = 0;
    while i < chars.len()
        invariant
            chars@ == kept@,
            i <= chars@.len(),
            frame@ == start + one_line(chars@.take(i as int)),
        decreases chars.len() - i,
    {
        assert(chars@.take(i as int + 1).drop_last() =~= chars@.take(i as int));
        let c = chars[i];
        push_char(&mut frame, if c == '\n' { ' ' } else { c });
        assert(frame@ =~= start + one_line(chars@.take(i as int + 1)));
        i = i + 1;
    }
    assert(chars@.take(chars@.len() as int) =~= chars@);
    frame.append("\n\n");
    Some(ReplyPiece { text: kept, frame })
}

/// Checks a conversation request before it is sent: a message, and a configured model.
pub fn check_conversation(message: &str, model: &str) -> (r: Result<(), String>)
    ensures
        trim(message@).len() == 0 ==> (r matches Err(e) && e@ == "message is required"@),
        trim(message@).len() > 0 && trim(model@).len() == 0 ==> (r matches Err(e) && e@ == "Provider model is required"@),
        trim(message@).len() > 0 && trim(model@).len() > 0 ==> r is Ok,
{
    if trimmed(message).as_str().is_empty() {
        return Err("message is required".to_owned());
    }
    if trimmed(model).as_str().is_empty() {
        return Err("Provider model is required".to_owned());
    }
    Ok(())
}

} // verus!
