//! The codings that a client is set to ask for and to decode.

use vstd::prelude::*;

use crate::headers;

verus! {

/// A content coding that bodies can be decoded from.
#[derive(Debug, Clone, Copy, PartialEq, Eq, Structural)]
pub enum Coding {
    /// The gzip coding.
    Gzip,
    /// The Deflate coding, that is, Deflate data in a zlib wrapper.
    Deflate,
    /// The Brotli coding.
    Brotli,
}

impl Coding {
    /// The name of the coding in header fields.
    pub open spec fn token(self) -> Seq<char> {
        match self {
            Coding::Gzip => "gzip"@,
            Coding::Deflate => "deflate"@,
            Coding::Brotli => "br"@,
        }
    }

    /// The name of the coding as a flag.
    pub open spec fn flag_name(self) -> Seq<char> {
        match self {
            Coding::Gzip => "GZIP"@,
            Coding::Deflate => "DEFLATE"@,
            Coding::Brotli => "BR"@,
        }
    }
}

/// The coding that a header value names, by its token and nothing else.
pub open spec fn coding_named(value: Seq<u8>) -> Option<Coding> {
    if value == vstd::utf8::encode_utf8(Coding::Gzip.token()) {
        Some(Coding::Gzip)
    } else if value == vstd::utf8::encode_utf8(Coding::Deflate.token()) {
        Some(Coding::Deflate)
    } else if value == vstd::utf8::encode_utf8(Coding::Brotli.token()) {
        Some(Coding::Brotli)
    } else {
        None
    }
}

/// The coding that `value` names and `codings` has, if there is one.
pub open spec fn coding_among(value: Seq<u8>, codings: Set<Coding>) -> Option<Coding> {
    match coding_named(value) {
        Some(coding) if codings.contains(coding) => Some(coding),
        _ => None,
    }
}

/// The bit that stands for gzip.
const GZIP: u8 = 0b001;

/// The bit that stands for Deflate.
const DEFLATE: u8 = 0b010;

/// The bit that stands for Brotli.
const BR: u8 = 0b100;

/// The bits of all codings.
const ALL: u8 = 0b111;

/// A set of codings.
#[derive(Clone, Copy, PartialEq, Eq, Structural)]
pub struct Options {
    bits: u8,
}

/// The bit that stands for `coding`.
spec fn flag(coding: Coding) -> u8 {
    match coding {
        Coding::Gzip => GZIP,
        Coding::Deflate => DEFLATE,
        Coding::Brotli => BR,
    }
}

impl View for Options {
    type V = Set<Coding>;

    /// The codings in the set.
    closed spec fn view(&self) -> Set<Coding> {
        Set::new(|coding: Coding| self.bits & flag(coding) == flag(coding))
    }
}

/// The token of `coding` where it is one of `codings`.
pub open spec fn token_if(codings: Set<Coding>, coding: Coding) -> Seq<Seq<char>> {
    if codings.contains(coding) {
        seq![coding.token()]
    } else {
        seq![]
    }
}

/// The tokens of `codings`, in the order gzip, Deflate, Brotli.
pub open spec fn tokens(codings: Set<Coding>) -> Seq<Seq<char>> {
    token_if(codings, Coding::Gzip) + token_if(codings, Coding::Deflate) + token_if(
        codings,
        Coding::Brotli,
    )
}

/// `items` one after the other, with `separator` between each two.
pub open spec fn joined(items: Seq<Seq<char>>, separator: Seq<char>) -> Seq<char>
    decreases items.len(),
{
    if items.len() == 0 {
        seq![]
    } else if items.len() == 1 {
        items[0]
    } else {
        joined(items.drop_last(), separator) + separator + items.last()
    }
}

/// `tokens` as they stand in a header value, with a comma between each two.
pub open spec fn comma_separated(tokens: Seq<Seq<char>>) -> Seq<char> {
    joined(tokens, seq![','])
}

/// The bytes of the `Accept-Encoding` value that asks for `codings`, where there
/// is anything to ask for.
pub open spec fn accepted(codings: Set<Coding>) -> Option<Seq<u8>> {
    if codings == Set::<Coding>::empty() {
        None
    } else {
        Some(vstd::utf8::encode_utf8(comma_separated(tokens(codings))))
    }
}

/// The flag name of `coding` where it is one of `codings`.
pub open spec fn flag_name_if(codings: Set<Coding>, coding: Coding) -> Seq<Seq<char>> {
    if codings.contains(coding) {
        seq![coding.flag_name()]
    } else {
        seq![]
    }
}

/// The flag names of `codings`, in the order gzip, Deflate, Brotli.
pub open spec fn flag_names(codings: Set<Coding>) -> Seq<Seq<char>> {
    flag_name_if(codings, Coding::Gzip) + flag_name_if(codings, Coding::Deflate) + flag_name_if(
        codings,
        Coding::Brotli,
    )
}

/// `codings` as they are shown to a programmer.
pub open spec fn shown(codings: Set<Coding>) -> Seq<char> {
    if codings == Set::<Coding>::empty() {
        "(empty)"@
    } else {
        joined(flag_names(codings), " | "@)
    }
}

/// `codings` with `coding` put in or taken out.
pub open spec fn with_coding(codings: Set<Coding>, coding: Coding, enable: bool) -> Set<Coding> {
    if enable {
        codings.insert(coding)
    } else {
        codings.remove(coding)
    }
}

impl Options {
    /// No bit is set but those of the codings.
    #[verifier::type_invariant]
    pub closed spec fn well_formed(self) -> bool {
        self.bits <= ALL
    }

    /// Whether all bits of `flags` are set.
    fn contains(&self, flags: u8) -> (all_set: bool)
        ensures
            all_set == (self.bits & flags == flags),
    {
        self.bits & flags == flags
    }

    /// Sets the bits of `flags`, or clears them.
    fn set(&mut self, flags: u8, enable: bool)
        requires
            flags <= ALL,
        ensures
            final(self).bits == if enable {
                old(self).bits | flags
            } else {
                old(self).bits & !flags
            },
    {
        proof {
            use_type_invariant(&*self);
        }
        let bits: u8 = self.bits;
        assert(bits | flags <= 7 && bits & !flags <= 7) by (bit_vector)
            requires
                bits <= 7,
                flags <= 7,
        ;
        if enable {
            self.bits = bits | flags;
        } else {
            self.bits = bits & !flags;
        }
    }

    /// The `Accept-Encoding` value that asks for the codings in the set, if there
    /// are any.
    pub fn accept_encoding(&self) -> (value: Option<http::HeaderValue>)
        ensures
            match value {
                Some(v) => accepted(self@) == Some(headers::value_parts(v).0)
                    && !headers::value_parts(v).1,
                None => accepted(self@) is None,
            },
    {
        let accept = match (self.gzip(), self.deflate(), self.br()) {
            (true, true, true) => "gzip,deflate,br",
            (true, true, false) => "gzip,deflate",
            (true, false, true) => "gzip,br",
            (true, false, false) => "gzip",
            (false, true, true) => "deflate,br",
            (false, true, false) => "deflate",
            (false, false, true) => "br",
            (false, false, false) => {
                proof {
                    lemma_no_coding(self@);
                }
                return None;
            },
        };
        proof {
            lemma_lists(self@);
            assert(accept@ == comma_separated(tokens(self@)));
        }
        Some(headers::from_static(accept))
    }

    /// The set as it is shown to a programmer: the flag names of its codings.
    pub fn flags(&self) -> (text: &'static str)
        ensures
            text@ == shown(self@),
    {
        proof {
            lemma_shown(self@);
        }
        match (self.gzip(), self.deflate(), self.br()) {
            (true, true, true) => "GZIP | DEFLATE | BR",
            (true, true, false) => "GZIP | DEFLATE",
            (true, false, true) => "GZIP | BR",
            (true, false, false) => "GZIP",
            (false, true, true) => "DEFLATE | BR",
            (false, true, false) => "DEFLATE",
            (false, false, true) => "BR",
            (false, false, false) => "(empty)",
        }
    }

    /// The coding in the set that `value` names, if there is one. The token is
    /// compared byte by byte.
    pub fn coding_of(&self, value: &[u8]) -> (coding: Option<Coding>)
        ensures
            coding == coding_among(value@, self@),
    {
        proof {
            lemma_tokens_differ();
            assert(Coding::Gzip.token() == "gzip"@);
            assert(Coding::Deflate.token() == "deflate"@);
            assert(Coding::Brotli.token() == "br"@);
        }
        if self.gzip() && same_bytes(value, "gzip".as_bytes()) {
            Some(Coding::Gzip)
        } else if self.deflate() && same_bytes(value, "deflate".as_bytes()) {
            Some(Coding::Deflate)
        } else if self.br() && same_bytes(value, "br".as_bytes()) {
            Some(Coding::Brotli)
        } else {
            None
        }
    }

    /// Whether gzip is in the set.
    pub fn gzip(&self) -> (enabled: bool)
        ensures
            enabled == self@.contains(Coding::Gzip),
    {
        self.contains(GZIP)
    }

    /// Whether Deflate is in the set.
    pub fn deflate(&self) -> (enabled: bool)
        ensures
            enabled == self@.contains(Coding::Deflate),
    {
        self.contains(DEFLATE)
    }

    /// Whether Brotli is in the set.
    pub fn br(&self) -> (enabled: bool)
        ensures
            enabled == self@.contains(Coding::Brotli),
    {
        self.contains(BR)
    }

    /// Puts gzip into the set, or takes it out.
    pub fn set_gzip(self, enable: bool) -> (options: Self)
        ensures
            options@ == with_coding(self@, Coding::Gzip, enable),
    {
        let mut options = self;
        options.set(GZIP, enable);
        proof {
            lemma_set(self, options, Coding::Gzip, enable);
        }
        options
    }

    /// Puts Deflate into the set, or takes it out.
    pub fn set_deflate(self, enable: bool) -> (options: Self)
        ensures
            options@ == with_coding(self@, Coding::Deflate, enable),
    {
        let mut options = self;
        options.set(DEFLATE, enable);
        proof {
            lemma_set(self, options, Coding::Deflate, enable);
        }
        options
    }

    /// Puts Brotli into the set, or takes it out.
    pub fn set_br(self, enable: bool) -> (options: Self)
        ensures
            options@ == with_coding(self@, Coding::Brotli, enable),
    {
        let mut options = self;
        options.set(BR, enable);
        proof {
            lemma_set(self, options, Coding::Brotli, enable);
        }
        options
    }
}

/// Setting or clearing the bit of one coding changes the set by that coding.
proof fn lemma_set(old_options: Options, new_options: Options, coding: Coding, enable: bool)
    requires
        new_options.bits == if enable {
            old_options.bits | flag(coding)
        } else {
            old_options.bits & !flag(coding)
        },
    ensures
        new_options@ == with_coding(old_options@, coding, enable),
{
    let before: u8 = old_options.bits;
    let f: u8 = flag(coding);
    assert forall|other: Coding|
        new_options@.contains(other) == with_coding(old_options@, coding, enable).contains(
            other,
        ) by {
        let g: u8 = flag(other);
        assert((before | f) & f == f && (before & !f) & f == 0) by (bit_vector);
        assert(g & f == 0 ==> (before | f) & g == before & g && (before & !f) & g == before & g)
            by (bit_vector);
        assert(1u8 & 2u8 == 0 && 1u8 & 4u8 == 0 && 2u8 & 4u8 == 0 && 2u8 & 1u8 == 0 && 4u8 & 1u8
            == 0 && 4u8 & 2u8 == 0) by (bit_vector);
    }
    assert(new_options@ =~= with_coding(old_options@, coding, enable));
}

/// Whether `a` and `b` hold the same bytes.
fn same_bytes(a: &[u8], b: &[u8]) -> (same: bool)
    ensures
        same == (a@ == b@),
{
    if a.len() != b.len() {
        return false;
    }
    let mut i: usize = 0;
    while i < a.len()
        invariant
            i <= a.len(),
            a.len() == b.len(),
            forall|j: int| 0 <= j < i ==> a@[j] == b@[j],
        decreases a.len() - i,
    {
        if a[i] != b[i] {
            assert(a@[i as int] != b@[i as int]);
            return false;
        }
        i = i + 1;
    }
    assert(a@ =~= b@);
    true
}

/// No two codings have tokens of the same bytes.
pub(crate) proof fn lemma_tokens_differ()
    ensures
        forall|a: Coding, b: Coding|
            vstd::utf8::encode_utf8(#[trigger] a.token()) == vstd::utf8::encode_utf8(
                #[trigger] b.token(),
            ) ==> a == b,
{
    reveal_strlit("gzip");
    reveal_strlit("deflate");
    reveal_strlit("br");
    vstd::utf8::is_ascii_chars_encode_utf8("gzip"@);
    vstd::utf8::is_ascii_chars_encode_utf8("deflate"@);
    vstd::utf8::is_ascii_chars_encode_utf8("br"@);
}

impl Default for Options {
    /// The set of all codings.
    fn default() -> (options: Self)
        ensures
            options@ == Set::<Coding>::full(),
    {
        let options = Options { bits: ALL };
        assert(7u8 & 1u8 == 1 && 7u8 & 2u8 == 2 && 7u8 & 4u8 == 4) by (bit_vector);
        assert(options@ =~= Set::<Coding>::full());
        options
    }
}

/// What the list of tokens comes to, written out for each set of codings.
pub(crate) proof fn lemma_lists(codings: Set<Coding>)
    ensures
        comma_separated(tokens(codings)) == match (
            codings.contains(Coding::Gzip),
            codings.contains(Coding::Deflate),
            codings.contains(Coding::Brotli),
        ) {
            (true, true, true) => "gzip,deflate,br"@,
            (true, true, false) => "gzip,deflate"@,
            (true, false, true) => "gzip,br"@,
            (true, false, false) => "gzip"@,
            (false, true, true) => "deflate,br"@,
            (false, true, false) => "deflate"@,
            (false, false, true) => "br"@,
            (false, false, false) => seq![],
        },
        forall|i: int|
            0 <= i < vstd::utf8::encode_utf8(comma_separated(tokens(codings))).len()
                ==> headers::is_visible(
                #[trigger] vstd::utf8::encode_utf8(comma_separated(tokens(codings)))[i],
            ),
{
    reveal_with_fuel(joined, 4);
    reveal_strlit("gzip");
    reveal_strlit("deflate");
    reveal_strlit("br");
    reveal_strlit("gzip,deflate,br");
    reveal_strlit("gzip,deflate");
    reveal_strlit("gzip,br");
    reveal_strlit("deflate,br");
    let list = comma_separated(tokens(codings));
    let g = codings.contains(Coding::Gzip);
    let d = codings.contains(Coding::Deflate);
    let b = codings.contains(Coding::Brotli);
    if g && d && b {
        assert(tokens(codings).drop_last().drop_last() =~= seq!["gzip"@]);
        assert(list =~= "gzip,deflate,br"@);
    } else if g && d {
        assert(tokens(codings).drop_last() =~= seq!["gzip"@]);
        assert(list =~= "gzip,deflate"@);
    } else if g && b {
        assert(tokens(codings).drop_last() =~= seq!["gzip"@]);
        assert(list =~= "gzip,br"@);
    } else if d && b {
        assert(tokens(codings).drop_last() =~= seq!["deflate"@]);
        assert(list =~= "deflate,br"@);
    }
    assert(vstd::utf8::is_ascii_chars(list));
    vstd::utf8::is_ascii_chars_encode_utf8(list);
}

/// What is shown, written out for each set of codings.
pub(crate) proof fn lemma_shown(codings: Set<Coding>)
    ensures
        shown(codings) == match (
            codings.contains(Coding::Gzip),
            codings.contains(Coding::Deflate),
            codings.contains(Coding::Brotli),
        ) {
            (true, true, true) => "GZIP | DEFLATE | BR"@,
            (true, true, false) => "GZIP | DEFLATE"@,
            (true, false, true) => "GZIP | BR"@,
            (true, false, false) => "GZIP"@,
            (false, true, true) => "DEFLATE | BR"@,
            (false, true, false) => "DEFLATE"@,
            (false, false, true) => "BR"@,
            (false, false, false) => "(empty)"@,
        },
{
    lemma_no_coding(codings);
    reveal_with_fuel(joined, 4);
    reveal_strlit("GZIP");
    reveal_strlit("DEFLATE");
    reveal_strlit("BR");
    reveal_strlit(" | ");
    reveal_strlit("GZIP | DEFLATE | BR");
    reveal_strlit("GZIP | DEFLATE");
    reveal_strlit("GZIP | BR");
    reveal_strlit("DEFLATE | BR");
    let names = flag_names(codings);
    let text = joined(names, " | "@);
    let g = codings.contains(Coding::Gzip);
    let d = codings.contains(Coding::Deflate);
    let b = codings.contains(Coding::Brotli);
    if g && d && b {
        assert(names.drop_last().drop_last() =~= seq!["GZIP"@]);
        assert(text =~= "GZIP | DEFLATE | BR"@);
    } else if g && d {
        assert(names.drop_last() =~= seq!["GZIP"@]);
        assert(text =~= "GZIP | DEFLATE"@);
    } else if g && b {
        assert(names.drop_last() =~= seq!["GZIP"@]);
        assert(text =~= "GZIP | BR"@);
    } else if d && b {
        assert(names.drop_last() =~= seq!["DEFLATE"@]);
        assert(text =~= "DEFLATE | BR"@);
    }
}

/// Two sets of options are equal exactly where they have the same codings.
pub proof fn options_are_their_codings(a: Options, b: Options)
    requires
        a.well_formed(),
        b.well_formed(),
    ensures
        a == b <==> a@ == b@,
{
    if a@ == b@ {
        let x: u8 = a.bits;
        let y: u8 = b.bits;
        assert(a@.contains(Coding::Gzip) == b@.contains(Coding::Gzip));
        assert(a@.contains(Coding::Deflate) == b@.contains(Coding::Deflate));
        assert(a@.contains(Coding::Brotli) == b@.contains(Coding::Brotli));
        assert(x == y) by (bit_vector)
            requires
                x <= 7,
                y <= 7,
                (x & 1 == 1) == (y & 1 == 1),
                (x & 2 == 2) == (y & 2 == 2),
                (x & 4 == 4) == (y & 4 == 4),
        ;
    }
}

/// Of two settings of the same coding the later one counts.
pub proof fn later_setting_counts(
    codings: Set<Coding>,
    coding: Coding,
    earlier: bool,
    later: bool,
)
    ensures
        with_coding(with_coding(codings, coding, earlier), coding, later) == with_coding(
            codings,
            coding,
            later,
        ),
{
    assert(with_coding(with_coding(codings, coding, earlier), coding, later) =~= with_coding(
        codings,
        coding,
        later,
    ));
}

/// Settings of different codings can be made in either order.
pub proof fn settings_commute(
    codings: Set<Coding>,
    coding: Coding,
    enable: bool,
    other: Coding,
    enable_other: bool,
)
    requires
        coding != other,
    ensures
        with_coding(with_coding(codings, coding, enable), other, enable_other) == with_coding(
            with_coding(codings, other, enable_other),
            coding,
            enable,
        ),
{
    assert(with_coding(with_coding(codings, coding, enable), other, enable_other) =~= with_coding(
        with_coding(codings, other, enable_other),
        coding,
        enable,
    ));
}

/// The tokens that are asked for are those of the codings in the set.
pub proof fn asked_for_are_the_codings(codings: Set<Coding>, coding: Coding)
    ensures
        tokens(codings).contains(coding.token()) <==> codings.contains(coding),
{
    reveal_strlit("gzip");
    reveal_strlit("deflate");
    reveal_strlit("br");
    let g = token_if(codings, Coding::Gzip);
    let d = token_if(codings, Coding::Deflate);
    let b = token_if(codings, Coding::Brotli);
    if codings.contains(coding) {
        let at = match coding {
            Coding::Gzip => 0int,
            Coding::Deflate => g.len() as int,
            Coding::Brotli => (g + d).len() as int,
        };
        assert(tokens(codings)[at] == coding.token());
    }
    if tokens(codings).contains(coding.token()) {
        let at = choose|i: int|
            0 <= i < tokens(codings).len() && tokens(codings)[i] == coding.token();
        assert(coding.token().len() == 4 || coding.token().len() == 7 || coding.token().len() == 2);
    }
}

/// The `Accept-Encoding` value tells which codings are asked for: no two sets of
/// codings give the same.
pub proof fn accepted_tells_the_codings(a: Set<Coding>, b: Set<Coding>)
    requires
        accepted(a) == accepted(b),
    ensures
        a == b,
{
    lemma_lists(a);
    lemma_lists(b);
    lemma_no_coding(a);
    lemma_no_coding(b);
    reveal_strlit("gzip,deflate,br");
    reveal_strlit("gzip,deflate");
    reveal_strlit("gzip,br");
    reveal_strlit("gzip");
    reveal_strlit("deflate,br");
    reveal_strlit("deflate");
    reveal_strlit("br");
    if accepted(a) is Some {
        let x = comma_separated(tokens(a));
        let y = comma_separated(tokens(b));
        assert(vstd::utf8::is_ascii_chars(x));
        assert(vstd::utf8::is_ascii_chars(y));
        vstd::utf8::is_ascii_chars_encode_utf8(x);
        vstd::utf8::is_ascii_chars_encode_utf8(y);
        assert(x.len() == y.len());
        assert(x[0] as u8 == y[0] as u8);
        assert forall|coding: Coding| a.contains(coding) == b.contains(coding) by {
            match coding {
                Coding::Gzip => {},
                Coding::Deflate => {},
                Coding::Brotli => {},
            }
        }
        assert(a =~= b);
    }
}

/// A set that has none of the codings is empty.
pub(crate) proof fn lemma_no_coding(codings: Set<Coding>)
    ensures
        codings == Set::<Coding>::empty() <==> !codings.contains(Coding::Gzip)
            && !codings.contains(Coding::Deflate) && !codings.contains(Coding::Brotli),
{
    if !codings.contains(Coding::Gzip) && !codings.contains(Coding::Deflate)
        && !codings.contains(Coding::Brotli) {
        assert forall|coding: Coding| !codings.contains(coding) by {
            match coding {
                Coding::Gzip => {},
                Coding::Deflate => {},
                Coding::Brotli => {},
            }
        }
        assert(codings =~= Set::<Coding>::empty());
    }
}

} // verus!
