use vstd::prelude::*;

verus! {

/// Largest message the chat transport takes, in characters.
pub const TELEGRAMM_CHAR_LIMIT: usize = 4096;

/// Separator of the lines a `StringBuilder` joins.
pub open spec fn builder_sep() -> Seq<char> {
    "\n ___________________________ \n "@
}

/// One captioned line: ` - {prefix} {text} `.
pub open spec fn line(prefix: Seq<char>, text: Seq<char>) -> Seq<char> {
    " - "@ + prefix + " "@ + text + " "@
}

/// The parts joined with `sep` between each two.
pub open spec fn join(parts: Seq<Seq<char>>, sep: Seq<char>) -> Seq<char>
    decreases parts.len(),
{
    if parts.len() == 0 {
        Seq::empty()
    } else if parts.len() == 1 {
        parts[0]
    } else {
        join(parts.drop_last(), sep) + sep + parts.last()
    }
}

/// The parts one after another.
pub open spec fn flat(parts: Seq<Seq<char>>) -> Seq<char>
    decreases parts.len(),
{
    if parts.len() == 0 {
        Seq::empty()
    } else {
        flat(parts.drop_last()) + parts.last()
    }
}

/// The text of an optional string, empty when absent.
pub open spec fn or_empty(o: Option<String>) -> Seq<char> {
    match o {
        Some(s) => s@,
        None => Seq::empty(),
    }
}

/// Collects captioned lines and joins them.
pub struct StringBuilder {
    parts: Vec<String>,
}

impl View for StringBuilder {
    type V = Seq<Seq<char>>;

    closed spec fn view(&self) -> Seq<Seq<char>> {
        self.parts@.map_values(|s: String| s@)
    }
}

fn make_line(prefix: &str, text: &str) -> (r: String)
    ensures
        r@ == line(prefix@, text@),
{
    let mut r = String::new();
    r.append(" - ");
    r.append(prefix);
    r.append(" ");
    r.append(text);
    r.append(" ");
    assert(r@ =~= line(prefix@, text@));
    r
}

/// Joins texts with `sep` between each two.
pub fn join_texts(parts: &Vec<String>, sep: &str) -> (r: String)
    ensures
        r@ == join(parts@.map_values(|s: String| s@), sep@),
{
    let ghost v = parts@.map_values(|s: String| s@);
    let mut r = String::new();
    let mut i: usize = 0;
    while i < parts.len()
        invariant
            i <= parts.len(),
            v == parts@.map_values(|s: String| s@),
            r@ == join(v.subrange(0, i as int), sep@),
        decreases parts.len() - i,
    {
        if i > 0 {
            r.append(sep);
        }
        r.append(parts[i].as_str());
        proof {
            let s = v.subrange(0, i + 1);
            assert(s.drop_last() =~= v.subrange(0, i as int));
            if i == 0 {
                assert(r@ =~= s[0]);
            } else {
                assert(r@ =~= join(s.drop_last(), sep@) + sep@ + s.last());
            }
        }
        i = i + 1;
    }
    assert(v.subrange(0, i as int) =~= v);
    r
}

impl StringBuilder {
    /// No lines yet.
    pub fn new() -> (r: Self)
        ensures
            r@ == Seq::<Seq<char>>::empty(),
    {
        let r = StringBuilder { parts: Vec::new() };
        assert(r@ =~= Seq::<Seq<char>>::empty());
        r
    }

    /// Adds the line ` - {prefix} {str} ` when there is a text.
    pub fn add(self, prefix: &str, str: Option<String>) -> (r: Self)
        ensures
            r@ == match str {
                Some(s) => self@.push(line(prefix@, s@)),
                None => self@,
            },
    {
        match str {
            None => self,
            Some(s) => {
                let mut me = self;
                let ghost before = me@;
                let l = make_line(prefix, s.as_str());
                me.parts.push(l);
                assert(me@ =~= before.push(line(prefix@, s@)));
                me
            },
        }
    }

    /// Adds a line ` - {name} {measure} ` for each pair, an empty measure when absent.
    pub fn add_many(self, strs: &Vec<(String, Option<String>)>) -> (r: Self)
        ensures
            r@ == self@ + strs@.map_values(|e: (String, Option<String>)| line(e.0@, or_empty(e.1))),
    {
        let mut me = self;
        let ghost start = me@;
        let ghost lines = strs@.map_values(|e: (String, Option<String>)| line(e.0@, or_empty(e.1)));
        let mut i: usize = 0;
        while i < strs.len()
            invariant
                i <= strs.len(),
                lines == strs@.map_values(|e: (String, Option<String>)| line(e.0@, or_empty(e.1))),
                me@ == start + lines.subrange(0, i as int),
            decreases strs.len() - i,
        {
            let ghost before = me@;
            let l = match &strs[i].1 {
                Some(m) => make_line(strs[i].0.as_str(), m.as_str()),
                None => make_line(strs[i].0.as_str(), ""),
            };
            proof {
                reveal_strlit("");
            }
            assert(l@ == lines[i as int]);
            let ghost bp = me.parts@;
            let ghost lv = l@;
            me.parts.push(l);
            assert(me.parts@ == bp.push(l));
            assert(me@ =~= before.push(lv));
            assert(me@ =~= start + lines.subrange(0, i + 1));
            i = i + 1;
        }
        assert(lines.subrange(0, i as int) =~= lines);
        me
    }

    /// The lines joined by a rule.
    pub fn get_str(self) -> (r: String)
        ensures
            r@ == join(self@, builder_sep()),
    {
        join_texts(&self.parts, "\n ___________________________ \n ")
    }
}

/// Rendered records joined with `join` between each two.
pub fn vec_to_string(vec: &Vec<String>, join: &str) -> (r: String)
    ensures
        r@ == crate::str_builder::join(vec@.map_values(|s: String| s@), join@),
{
    join_texts(vec, join)
}

proof fn lemma_flat_add(a: Seq<Seq<char>>, b: Seq<Seq<char>>)
    ensures
        flat(a + b) == flat(a) + flat(b),
    decreases b.len(),
{
    if b.len() == 0 {
        assert(a + b =~= a);
        assert(flat(a) + flat(b) =~= flat(a));
    } else {
        lemma_flat_add(a, b.drop_last());
        assert((a + b).drop_last() =~= a + b.drop_last());
        assert(flat(a + b) =~= flat(a) + flat(b));
    }
}

/// The chunks of a message: itself when under the limit, otherwise the
/// chunks of its first half followed by those of its second half, cut at
/// character `len / 2`.
pub open spec fn chunks(m: Seq<char>) -> Seq<Seq<char>>
    decreases m.len(),
{
    if m.len() < TELEGRAMM_CHAR_LIMIT {
        seq![m]
    } else {
        chunks(m.subrange(0, (m.len() / 2) as int)) + chunks(m.subrange((m.len() / 2) as int, m.len() as int))
    }
}

/// Cuts a message into chunks under the transport limit: a message at the
/// limit or over it is cut at its middle character and both halves are cut
/// again; the chunks, in order, make up the message.
pub fn split(message: &str) -> (r: Vec<String>)
    ensures
        r@.map_values(|s: String| s@) == chunks(message@),
        flat(r@.map_values(|s: String| s@)) == message@,
        forall|i: int| 0 <= i < r@.len() ==> (#[trigger] r@[i])@.len() < TELEGRAMM_CHAR_LIMIT,
        message@.len() >= TELEGRAMM_CHAR_LIMIT ==> r@.len() >= 2,
    decreases message@.len(),
{
    let n = message.unicode_len();
    if n < TELEGRAMM_CHAR_LIMIT {
        let v = vec![message.to_owned()];
        assert(v@.map_values(|s: String| s@) =~= seq![message@]);
        assert(seq![message@].drop_last() =~= Seq::<Seq<char>>::empty());
        assert(flat(Seq::<Seq<char>>::empty()) == Seq::<char>::empty());
        assert(flat(seq![message@]) =~= message@);
        assert(chunks(message@) == seq![message@]);
        return v;
    }
    let half = n / 2;
    let first = message.substring_char(0, half);
    let second = message.substring_char(half, n);
    let mut a = split(first);
    let mut b = split(second);
    let ghost va = a@;
    let ghost vb = b@;
    a.append(&mut b);
    proof {
        let ma = va.map_values(|s: String| s@);
        let mb = vb.map_values(|s: String| s@);
        assert(a@.map_values(|s: String| s@) =~= ma + mb);
        assert(chunks(message@) == chunks(first@) + chunks(second@));
        lemma_flat_add(ma, mb);
        assert(first@ + second@ =~= message@);
        assert forall|i: int| 0 <= i < a@.len() implies (#[trigger] a@[i])@.len() < TELEGRAMM_CHAR_LIMIT by {
            if i < va.len() {
                assert(a@[i] == va[i]);
            } else {
                assert(a@[i] == vb[i - va.len()]);
            }
        }
    }
    a
}

} // verus!
