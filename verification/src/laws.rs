//! What holds of the operations, whatever they are called with.
//!
//! The statements speak of what goes into a call and what comes out of it. That a
//! call of `f` with `args` may give `result` is written `call_ensures(f, args,
//! result)`. Field names, tokens and limits are written out.

use vstd::prelude::*;

use crate::body::{
    identity_data, trailers, BodyInner, CapturedError, DecodeBody, Placeholder,
};
use crate::buffers;
use crate::decode::{Decode, DecodeLayer, HeadersFull, Response, ResponseFuture};
use crate::headers;
use crate::options::{self, Coding, Options};
use crate::util::BodyAsStream;
use crate::Error;

verus! {

/// What a coding is called in header fields.
pub open spec fn name_of(coding: Coding) -> Seq<char> {
    match coding {
        Coding::Gzip => "gzip"@,
        Coding::Deflate => "deflate"@,
        Coding::Brotli => "br"@,
    }
}

/// Whether `item` stands in `text` from `i` up to `j`, between commas or the ends,
/// and has no comma in it.
pub open spec fn stands_at(text: Seq<char>, item: Seq<char>, i: int, j: int) -> bool {
    &&& 0 <= i <= j <= text.len()
    &&& text.subrange(i, j) == item
    &&& i == 0 || text[i - 1] == ','
    &&& j == text.len() || text[j] == ','
    &&& forall|k: int| i <= k < j ==> #[trigger] text[k] != ','
}

/// Whether `item` is one of the items of the comma-separated list `text`.
pub open spec fn is_item(text: Seq<char>, item: Seq<char>) -> bool {
    exists|i: int, j: int| #[trigger] stands_at(text, item, i, j)
}

/// Whether there is no comma in `text`.
pub open spec fn has_no_comma(text: Seq<char>) -> bool {
    forall|k: int| 0 <= k < text.len() ==> #[trigger] text[k] != ','
}

/// A text without a comma is a list of one item.
proof fn lemma_one_item(text: Seq<char>, item: Seq<char>)
    requires
        has_no_comma(text),
    ensures
        is_item(text, item) <==> item == text,
{
    assert(text.subrange(0, text.len() as int) =~= text);
    if item == text {
        assert(stands_at(text, item, 0, text.len() as int));
    }
    if is_item(text, item) {
        let (i, j) = choose|i: int, j: int| #[trigger] stands_at(text, item, i, j);
        assert(i == 0);
        assert(j == text.len());
    }
}

/// An item of the rest of a list is an item of the list.
proof fn lemma_item_of_rest(first: Seq<char>, rest: Seq<char>, item: Seq<char>)
    requires
        is_item(rest, item),
    ensures
        is_item(first + seq![','] + rest, item),
{
    let text = first + seq![','] + rest;
    let n = first.len() + 1;
    let (i, j) = choose|i: int, j: int| #[trigger] stands_at(rest, item, i, j);
    assert(text.subrange(n + i, n + j) =~= rest.subrange(i, j));
    if i == 0 {
        assert(text[n + i - 1] == ',');
    } else {
        assert(text[n + i - 1] == rest[i - 1]);
    }
    if j < rest.len() {
        assert(text[n + j] == rest[j]);
    }
    assert forall|k: int| n + i <= k < n + j implies #[trigger] text[k] != ',' by {
        assert(text[k] == rest[k - n]);
    }
    assert(stands_at(text, item, n + i, n + j));
}

/// An item of a list is the first one or an item of the rest.
proof fn lemma_item_of_list(first: Seq<char>, rest: Seq<char>, item: Seq<char>)
    requires
        has_no_comma(first),
        is_item(first + seq![','] + rest, item),
    ensures
        item == first || is_item(rest, item),
{
    let text = first + seq![','] + rest;
    let n = first.len() as int;
    let (i, j) = choose|i: int, j: int| #[trigger] stands_at(text, item, i, j);
    assert(text[n] == ',');
    if i <= n {
        if i > 0 {
            assert(text[i - 1] == first[i - 1]);
        }
        assert(j <= n) by {
            if j > n {
                assert(text[n] != ',');
            }
        }
        if j < n {
            assert(text[j] == first[j]);
        }
        assert(text.subrange(0, n) =~= first);
    } else {
        let a = i - n - 1;
        let b = j - n - 1;
        assert(rest.subrange(a, b) =~= text.subrange(i, j));
        if a > 0 {
            assert(text[i - 1] == rest[a - 1]);
        }
        if b < rest.len() {
            assert(text[j] == rest[b]);
        }
        assert forall|k: int| a <= k < b implies #[trigger] rest[k] != ',' by {
            assert(text[n + 1 + k] == rest[k]);
        }
        assert(stands_at(rest, item, a, b));
    }
}

/// The items of a list are the first one and those of the rest.
proof fn lemma_first_item(first: Seq<char>, rest: Seq<char>, item: Seq<char>)
    requires
        has_no_comma(first),
    ensures
        is_item(first + seq![','] + rest, item) <==> item == first || is_item(rest, item),
{
    let text = first + seq![','] + rest;
    if is_item(text, item) {
        lemma_item_of_list(first, rest, item);
    }
    if is_item(rest, item) {
        lemma_item_of_rest(first, rest, item);
    }
    if item == first {
        let n = first.len() as int;
        assert(text.subrange(0, n) =~= first);
        assert forall|k: int| 0 <= k < n implies #[trigger] text[k] != ',' by {
            assert(text[k] == first[k]);
        }
        assert(stands_at(text, item, 0, n));
    }
}

/// The items of the list that asks for `codings`, and its text.
proof fn lemma_asked_text(codings: Set<Coding>, item: Seq<char>)
    requires
        codings.contains(Coding::Gzip) || codings.contains(Coding::Deflate) || codings.contains(
            Coding::Brotli,
        ),
    ensures
        is_item(options::comma_separated(options::tokens(codings)), item) <==> (codings.contains(
            Coding::Gzip,
        ) && item == "gzip"@) || (codings.contains(Coding::Deflate) && item == "deflate"@) || (
        codings.contains(Coding::Brotli) && item == "br"@),
{
    options::lemma_lists(codings);
    reveal_strlit("gzip");
    reveal_strlit("deflate");
    reveal_strlit("br");
    reveal_strlit("gzip,deflate,br");
    reveal_strlit("gzip,deflate");
    reveal_strlit("gzip,br");
    reveal_strlit("deflate,br");
    assert("deflate,br"@ =~= "deflate"@ + seq![','] + "br"@);
    assert("gzip,br"@ =~= "gzip"@ + seq![','] + "br"@);
    assert("gzip,deflate"@ =~= "gzip"@ + seq![','] + "deflate"@);
    assert("gzip,deflate,br"@ =~= "gzip"@ + seq![','] + "deflate,br"@);
    lemma_one_item("gzip"@, item);
    lemma_one_item("deflate"@, item);
    lemma_one_item("br"@, item);
    lemma_first_item("deflate"@, "br"@, item);
    lemma_first_item("gzip"@, "br"@, item);
    lemma_first_item("gzip"@, "deflate"@, item);
    lemma_first_item("gzip"@, "deflate,br"@, item);
}

/// Texts of the same bytes are the same.
proof fn lemma_same_text(a: Seq<char>, b: Seq<char>)
    requires
        vstd::utf8::encode_utf8(a) == vstd::utf8::encode_utf8(b),
    ensures
        a == b,
{
    vstd::utf8::encode_utf8_decode_utf8(a);
    vstd::utf8::encode_utf8_decode_utf8(b);
}

/// The names of the codings, in terms of their tokens.
proof fn lemma_names()
    ensures
        forall|coding: Coding| #[trigger] name_of(coding) == coding.token(),
{
}

/// A set of options asks for a coding exactly where the coding's name is an item of
/// its `Accept-Encoding` value, and for nothing else. With no coding in the set
/// there is no value.
pub proof fn accept_encoding_lists_the_codings(
    options: Options,
    value: Option<http::HeaderValue>,
    text: Seq<char>,
    item: Seq<char>,
)
    requires
        call_ensures(Options::accept_encoding, (&options,), value),
        value matches Some(v) ==> headers::value_parts(v).0 == vstd::utf8::encode_utf8(text),
    ensures
        value is Some <==> options@.contains(Coding::Gzip) || options@.contains(Coding::Deflate)
            || options@.contains(Coding::Brotli),
        value matches Some(v) ==> !headers::value_parts(v).1,
        value is Some ==> (is_item(text, item) <==> exists|coding: Coding|
            options@.contains(coding) && item == #[trigger] name_of(coding)),
{
    options::lemma_no_coding(options@);
    if value is Some {
        lemma_same_text(text, options::comma_separated(options::tokens(options@)));
        lemma_asked_text(options@, item);
        if is_item(text, item) {
            if item == "gzip"@ && options@.contains(Coding::Gzip) {
                assert(item == name_of(Coding::Gzip));
            } else if item == "deflate"@ && options@.contains(Coding::Deflate) {
                assert(item == name_of(Coding::Deflate));
            } else {
                assert(item == name_of(Coding::Brotli));
            }
        }
    }
}

/// The `Accept-Encoding` value lists gzip before Deflate and Deflate before
/// Brotli, each once and with nothing but commas between them.
pub proof fn accept_encoding_is_exact(options: Options, value: http::HeaderValue)
    requires
        call_ensures(Options::accept_encoding, (&options,), Some(value)),
    ensures
        headers::value_parts(value).0 == vstd::utf8::encode_utf8(
            match (
                options@.contains(Coding::Gzip),
                options@.contains(Coding::Deflate),
                options@.contains(Coding::Brotli),
            ) {
                (true, true, true) => "gzip,deflate,br"@,
                (true, true, false) => "gzip,deflate"@,
                (true, false, true) => "gzip,br"@,
                (true, false, false) => "gzip"@,
                (false, true, true) => "deflate,br"@,
                (false, true, false) => "deflate"@,
                (false, false, true) => "br"@,
                (false, false, false) => seq![],
            },
        ),
{
    options::lemma_lists(options@);
}

/// A value names a coding by the bytes of its name and by nothing else, and only a
/// coding in the set is found.
pub proof fn coding_is_found_by_its_name(
    options: Options,
    value: &[u8],
    found: Option<Coding>,
    coding: Coding,
)
    requires
        call_ensures(Options::coding_of, (&options, value), found),
    ensures
        found == Some(coding) <==> value@ == vstd::utf8::encode_utf8(name_of(coding))
            && options@.contains(coding),
{
    options::lemma_tokens_differ();
    lemma_names();
    assert(name_of(coding) == coding.token());
}

/// What is shown of a set of options names its codings.
pub proof fn flags_show_the_codings(options: Options, text: &'static str)
    requires
        call_ensures(Options::flags, (&options,), text),
    ensures
        text@ == match (
            options@.contains(Coding::Gzip),
            options@.contains(Coding::Deflate),
            options@.contains(Coding::Brotli),
        ) {
            (true, true, true) => "GZIP | DEFLATE | BR"@,
            (true, true, false) => "GZIP | DEFLATE"@,
            (true, false, true) => "GZIP | BR"@,
            (true, false, false) => "GZIP"@,
            (false, true, true) => "DEFLATE | BR"@,
            (false, true, false) => "DEFLATE"@,
            (false, false, true) => "BR"@,
            (false, false, false) => "(empty)"@,
        },
{
    options::lemma_shown(options@);
}

/// Setting gzip decides about gzip and about no other coding, in a set of options,
/// in a service and in a layer alike.
pub proof fn setting_gzip_decides_gzip<S>(
    options: Options,
    decode: Decode<S>,
    layer: DecodeLayer,
    enable: bool,
    set: Options,
    set_decode: Decode<S>,
    set_layer: DecodeLayer,
    other: Coding,
)
    requires
        call_ensures(Options::set_gzip, (options, enable), set),
        call_ensures(Decode::<S>::gzip, (decode, enable), set_decode),
        call_ensures(DecodeLayer::gzip, (layer, enable), set_layer),
    ensures
        set@.contains(Coding::Gzip) == enable,
        other != Coding::Gzip ==> set@.contains(other) == options@.contains(other),
        set_decode.codings().contains(Coding::Gzip) == enable,
        other != Coding::Gzip ==> set_decode.codings().contains(other) == decode.codings().contains(
            other,
        ),
        set_decode.service() == decode.service(),
        set_layer.codings().contains(Coding::Gzip) == enable,
        other != Coding::Gzip ==> set_layer.codings().contains(other) == layer.codings().contains(
            other,
        ),
{
}

/// Disabling gzip takes gzip out and leaves every other coding as it was.
pub proof fn disabling_gzip_takes_gzip_out<S>(
    decode: Decode<S>,
    layer: DecodeLayer,
    set_decode: Decode<S>,
    set_layer: DecodeLayer,
    other: Coding,
)
    requires
        call_ensures(Decode::<S>::no_gzip, (decode,), set_decode),
        call_ensures(DecodeLayer::no_gzip, (layer,), set_layer),
    ensures
        !set_decode.codings().contains(Coding::Gzip),
        other != Coding::Gzip ==> set_decode.codings().contains(other) == decode.codings().contains(
            other,
        ),
        set_decode.service() == decode.service(),
        !set_layer.codings().contains(Coding::Gzip),
        other != Coding::Gzip ==> set_layer.codings().contains(other) == layer.codings().contains(
            other,
        ),
{
}

/// Setting Deflate decides about Deflate and about no other coding, in a set of options,
/// in a service and in a layer alike.
pub proof fn setting_deflate_decides_deflate<S>(
    options: Options,
    decode: Decode<S>,
    layer: DecodeLayer,
    enable: bool,
    set: Options,
    set_decode: Decode<S>,
    set_layer: DecodeLayer,
    other: Coding,
)
    requires
        call_ensures(Options::set_deflate, (options, enable), set),
        call_ensures(Decode::<S>::deflate, (decode, enable), set_decode),
        call_ensures(DecodeLayer::deflate, (layer, enable), set_layer),
    ensures
        set@.contains(Coding::Deflate) == enable,
        other != Coding::Deflate ==> set@.contains(other) == options@.contains(other),
        set_decode.codings().contains(Coding::Deflate) == enable,
        other != Coding::Deflate ==> set_decode.codings().contains(other) == decode.codings().contains(
            other,
        ),
        set_decode.service() == decode.service(),
        set_layer.codings().contains(Coding::Deflate) == enable,
        other != Coding::Deflate ==> set_layer.codings().contains(other) == layer.codings().contains(
            other,
        ),
{
}

/// Disabling Deflate takes Deflate out and leaves every other coding as it was.
pub proof fn disabling_deflate_takes_deflate_out<S>(
    decode: Decode<S>,
    layer: DecodeLayer,
    set_decode: Decode<S>,
    set_layer: DecodeLayer,
    other: Coding,
)
    requires
        call_ensures(Decode::<S>::no_deflate, (decode,), set_decode),
        call_ensures(DecodeLayer::no_deflate, (layer,), set_layer),
    ensures
        !set_decode.codings().contains(Coding::Deflate),
        other != Coding::Deflate ==> set_decode.codings().contains(other) == decode.codings().contains(
            other,
        ),
        set_decode.service() == decode.service(),
        !set_layer.codings().contains(Coding::Deflate),
        other != Coding::Deflate ==> set_layer.codings().contains(other) == layer.codings().contains(
            other,
        ),
{
}

/// Setting Brotli decides about Brotli and about no other coding, in a set of options,
/// in a service and in a layer alike.
pub proof fn setting_br_decides_br<S>(
    options: Options,
    decode: Decode<S>,
    layer: DecodeLayer,
    enable: bool,
    set: Options,
    set_decode: Decode<S>,
    set_layer: DecodeLayer,
    other: Coding,
)
    requires
        call_ensures(Options::set_br, (options, enable), set),
        call_ensures(Decode::<S>::br, (decode, enable), set_decode),
        call_ensures(DecodeLayer::br, (layer, enable), set_layer),
    ensures
        set@.contains(Coding::Brotli) == enable,
        other != Coding::Brotli ==> set@.contains(other) == options@.contains(other),
        set_decode.codings().contains(Coding::Brotli) == enable,
        other != Coding::Brotli ==> set_decode.codings().contains(other) == decode.codings().contains(
            other,
        ),
        set_decode.service() == decode.service(),
        set_layer.codings().contains(Coding::Brotli) == enable,
        other != Coding::Brotli ==> set_layer.codings().contains(other) == layer.codings().contains(
            other,
        ),
{
}

/// Disabling Brotli takes Brotli out and leaves every other coding as it was.
pub proof fn disabling_br_takes_br_out<S>(
    decode: Decode<S>,
    layer: DecodeLayer,
    set_decode: Decode<S>,
    set_layer: DecodeLayer,
    other: Coding,
)
    requires
        call_ensures(Decode::<S>::no_br, (decode,), set_decode),
        call_ensures(DecodeLayer::no_br, (layer,), set_layer),
    ensures
        !set_decode.codings().contains(Coding::Brotli),
        other != Coding::Brotli ==> set_decode.codings().contains(other) == decode.codings().contains(
            other,
        ),
        set_decode.service() == decode.service(),
        !set_layer.codings().contains(Coding::Brotli),
        other != Coding::Brotli ==> set_layer.codings().contains(other) == layer.codings().contains(
            other,
        ),
{
}

/// What is read of a set of options, of a service, of a layer and of what a request
/// leaves behind are the codings that it has.
pub proof fn codings_can_be_read<S>(
    decode: Decode<S>,
    layer: DecodeLayer,
    future: ResponseFuture,
    of_decode: Options,
    of_layer: Options,
    of_future: Options,
    options: Options,
    gzip: bool,
    deflate: bool,
    br: bool,
)
    requires
        call_ensures(Decode::<S>::options, (&decode,), of_decode),
        call_ensures(DecodeLayer::options, (&layer,), of_layer),
        call_ensures(ResponseFuture::options, (&future,), of_future),
        call_ensures(Options::gzip, (&options,), gzip),
        call_ensures(Options::deflate, (&options,), deflate),
        call_ensures(Options::br, (&options,), br),
    ensures
        of_decode@ == decode.codings(),
        of_layer@ == layer.codings(),
        of_future@ == future.codings(),
        gzip == options@.contains(Coding::Gzip),
        deflate == options@.contains(Coding::Deflate),
        br == options@.contains(Coding::Brotli),
{
}

/// A service and a layer start out with every coding, and a layer gives a service
/// its own codings. So a fresh layer makes of a service what `Decode::new` does.
pub proof fn every_coding_is_on_at_first<S>(
    service: S,
    decode: Decode<S>,
    layer: DecodeLayer,
    other_layer: DecodeLayer,
    layered: Decode<S>,
    coding: Coding,
)
    requires
        call_ensures(Decode::<S>::new, (service,), decode),
        call_ensures(DecodeLayer::new, (), layer),
        call_ensures(DecodeLayer::layer::<S>, (&other_layer, service), layered),
    ensures
        decode.codings().contains(coding),
        decode.service() == service,
        layer.codings().contains(coding),
        layered.codings() == other_layer.codings(),
        layered.service() == service,
{
}

/// The service that is wrapped is the one that is handed out, and nothing but the
/// service changes through a reference to it.
pub proof fn service_is_handed_out<S>(
    decode: Decode<S>,
    by_ref: &S,
    by_value: S,
    changed: &mut Decode<S>,
    by_mut: &mut S,
)
    requires
        call_ensures(Decode::<S>::get_ref, (&decode,), by_ref),
        call_ensures(Decode::<S>::into_inner, (decode,), by_value),
        call_ensures(Decode::<S>::get_mut, (changed,), by_mut),
    ensures
        *by_ref == decode.service(),
        by_value == decode.service(),
        *old(by_mut) == old(changed).service(),
        final(changed).service() == *final(by_mut),
        final(changed).codings() == old(changed).codings(),
{
}

/// A request comes out with an `Accept-Encoding` field exactly where it had one, or
/// where it asks for no range and some coding is enabled. No other field has a say.
pub proof fn request_gains_accept_encoding<S>(
    decode: Decode<S>,
    request: &mut http::HeaderMap<http::HeaderValue>,
    future: ResponseFuture,
)
    requires
        call_ensures(Decode::<S>::call, (&decode, request), Ok(future)),
    ensures
        headers::fields(*final(request)).contains_key("accept-encoding"@) <==> headers::fields(
            *old(request),
        ).contains_key("accept-encoding"@) || (!headers::fields(*old(request)).contains_key(
            "range"@,
        ) && exists|coding: Coding| #[trigger] decode.codings().contains(coding)),
{
    lemma_some_coding(decode.codings());
    options::lemma_no_coding(decode.codings());
    lemma_range_is_another_name();
}

/// Whether some coding is enabled, coding by coding.
proof fn lemma_some_coding(codings: Set<Coding>)
    ensures
        (exists|coding: Coding| #[trigger] codings.contains(coding)) <==> codings.contains(
            Coding::Gzip,
        ) || codings.contains(Coding::Deflate) || codings.contains(Coding::Brotli),
{
    if exists|coding: Coding| #[trigger] codings.contains(coding) {
        let coding = choose|coding: Coding| #[trigger] codings.contains(coding);
        match coding {
            Coding::Gzip => {},
            Coding::Deflate => {},
            Coding::Brotli => {},
        }
    }
}

/// The fields that are looked up in a request have different names.
proof fn lemma_range_is_another_name()
    ensures
        "range"@ != "accept-encoding"@,
{
    reveal_strlit("range");
    reveal_strlit("accept-encoding");
    assert("range"@.len() != "accept-encoding"@.len());
}

/// The field that a request gains has one value, which is not sensitive and lists
/// the names of exactly the enabled codings. No other field has a say.
pub proof fn request_asks_for_the_codings<S>(
    decode: Decode<S>,
    request: &mut http::HeaderMap<http::HeaderValue>,
    future: ResponseFuture,
    text: Seq<char>,
    item: Seq<char>,
)
    requires
        call_ensures(Decode::<S>::call, (&decode, request), Ok(future)),
        !headers::fields(*old(request)).contains_key("accept-encoding"@),
        headers::fields(*final(request)).contains_key("accept-encoding"@),
        headers::fields(*final(request))["accept-encoding"@][0].0 == vstd::utf8::encode_utf8(text),
    ensures
        headers::fields(*final(request))["accept-encoding"@] == seq![
            (vstd::utf8::encode_utf8(text), false),
        ],
        is_item(text, item) <==> exists|coding: Coding|
            decode.codings().contains(coding) && item == #[trigger] name_of(coding),
        text == match (
            decode.codings().contains(Coding::Gzip),
            decode.codings().contains(Coding::Deflate),
            decode.codings().contains(Coding::Brotli),
        ) {
            (true, true, true) => "gzip,deflate,br"@,
            (true, true, false) => "gzip,deflate"@,
            (true, false, true) => "gzip,br"@,
            (true, false, false) => "gzip"@,
            (false, true, true) => "deflate,br"@,
            (false, true, false) => "deflate"@,
            (false, false, true) => "br"@,
            (false, false, false) => seq![],
        },
{
    let codings = decode.codings();
    options::lemma_no_coding(codings);
    lemma_same_text(text, options::comma_separated(options::tokens(codings)));
    options::lemma_lists(codings);
    lemma_asked_text(codings, item);
    if is_item(text, item) {
        if item == "gzip"@ && codings.contains(Coding::Gzip) {
            assert(item == name_of(Coding::Gzip));
        } else if item == "deflate"@ && codings.contains(Coding::Deflate) {
            assert(item == name_of(Coding::Deflate));
        } else {
            assert(item == name_of(Coding::Brotli));
        }
    }
}

/// A request for a range, a request with an `Accept-Encoding` field of its own, and
/// any request where no coding is enabled go out as they are.
pub proof fn request_is_left_alone<S>(
    decode: Decode<S>,
    request: &mut http::HeaderMap<http::HeaderValue>,
    future: Result<ResponseFuture, HeadersFull>,
)
    requires
        call_ensures(Decode::<S>::call, (&decode, request), future),
        headers::fields(*old(request)).contains_key("range"@) || headers::fields(
            *old(request),
        ).contains_key("accept-encoding"@) || decode.codings() == Set::<Coding>::empty(),
    ensures
        *final(request) == *old(request),
        future is Ok,
{
}

/// Every other field of a request stays as it is, and none but `Accept-Encoding` is
/// gained. An `Accept-Encoding` field that was there stays too.
pub proof fn request_keeps_other_fields<S>(
    decode: Decode<S>,
    request: &mut http::HeaderMap<http::HeaderValue>,
    future: Result<ResponseFuture, HeadersFull>,
    name: Seq<char>,
)
    requires
        call_ensures(Decode::<S>::call, (&decode, request), future),
        name != "accept-encoding"@ || headers::fields(*old(request)).contains_key(name),
    ensures
        headers::fields(*final(request)).contains_key(name) == headers::fields(
            *old(request),
        ).contains_key(name),
        headers::fields(*old(request)).contains_key(name) ==> headers::fields(*final(request))[name]
            == headers::fields(*old(request))[name],
{
}

/// A request is refused only where it was to gain a field and has so many names
/// that its map may be full, and then its fields stay as they are.
pub proof fn request_is_refused_only_when_full<S>(
    decode: Decode<S>,
    request: &mut http::HeaderMap<http::HeaderValue>,
    refused: HeadersFull,
)
    requires
        call_ensures(Decode::<S>::call, (&decode, request), Err(refused)),
    ensures
        headers::fields(*final(request)) == headers::fields(*old(request)),
        headers::fields(*old(request)).dom().len() >= 6554,
        !headers::fields(*old(request)).contains_key("range"@),
        !headers::fields(*old(request)).contains_key("accept-encoding"@),
        exists|coding: Coding| #[trigger] decode.codings().contains(coding),
{
    options::lemma_no_coding(decode.codings());
    lemma_some_coding(decode.codings());
}

/// What comes of a request depends on how the attempt to give it a field came out,
/// and a response is treated by the codings that its request was sent with.
pub proof fn response_is_treated_by_the_codings_of_its_request<S>(
    decode: Decode<S>,
    request: &mut http::HeaderMap<http::HeaderValue>,
    future: ResponseFuture,
    inserted: Result<Option<http::HeaderValue>, http::header::MaxSizeReached>,
    answered: Result<ResponseFuture, HeadersFull>,
)
    requires
        call_ensures(Decode::<S>::call, (&decode, request), Ok(future)),
        call_ensures(Decode::<S>::asked, (&decode, inserted), answered),
    ensures
        future.codings() == decode.codings(),
        inserted is Ok <==> answered is Ok,
        answered matches Ok(f) ==> f.codings() == decode.codings(),
{
}

/// A request that has been made ready is left alone by any other service, whatever
/// that service asks for.
pub proof fn request_is_made_ready_once<S, T>(
    decode: Decode<S>,
    request: &mut http::HeaderMap<http::HeaderValue>,
    future: ResponseFuture,
    other: Decode<T>,
    ready: &mut http::HeaderMap<http::HeaderValue>,
    other_future: Result<ResponseFuture, HeadersFull>,
)
    requires
        call_ensures(Decode::<S>::call, (&decode, request), Ok(future)),
        call_ensures(Decode::<T>::call, (&other, ready), other_future),
        *old(ready) == *final(request),
        decode.codings() != Set::<Coding>::empty() || other.codings() == decode.codings(),
    ensures
        *final(ready) == *old(ready),
        other_future is Ok,
{
}

/// The body of a response is put under the decoder for a coding exactly where the
/// first `Content-Encoding` value is the name of that coding and the coding is
/// enabled. No other field and no other value has a say.
pub proof fn body_is_decoded_where_named<H, B, E>(
    res: Response<H, B>,
    options: Options,
    wrapped: Response<H, DecodeBody<B, E>>,
)
    requires
        call_ensures(DecodeBody::<B, E>::wrap_response::<H>, (res, &options), wrapped),
    ensures
        wrapped.body.inner is Gzip <==> {
            &&& headers::fields(res.headers).contains_key("content-encoding"@)
            &&& headers::fields(res.headers)["content-encoding"@][0].0 == vstd::utf8::encode_utf8(
                "gzip"@,
            )
            &&& options@.contains(Coding::Gzip)
        },
        wrapped.body.inner is Deflate <==> {
            &&& headers::fields(res.headers).contains_key("content-encoding"@)
            &&& headers::fields(res.headers)["content-encoding"@][0].0 == vstd::utf8::encode_utf8(
                "deflate"@,
            )
            &&& options@.contains(Coding::Deflate)
        },
        wrapped.body.inner is Brotli <==> {
            &&& headers::fields(res.headers).contains_key("content-encoding"@)
            &&& headers::fields(res.headers)["content-encoding"@][0].0 == vstd::utf8::encode_utf8(
                "br"@,
            )
            &&& options@.contains(Coding::Brotli)
        },
{
    options::lemma_tokens_differ();
    lemma_names();
    assert(name_of(Coding::Gzip) == "gzip"@);
    assert(name_of(Coding::Deflate) == "deflate"@);
    assert(name_of(Coding::Brotli) == "br"@);
}

/// The same of the response that a service answered.
pub proof fn answer_body_is_decoded_where_named<H, B, E, F>(
    future: ResponseFuture,
    res: Response<H, B>,
    wrapped: Response<H, DecodeBody<B, E>>,
)
    requires
        call_ensures(
            ResponseFuture::poll::<H, B, E, F>,
            (&future, Ok::<Response<H, B>, F>(res)),
            Ok::<Response<H, DecodeBody<B, E>>, F>(wrapped),
        ),
    ensures
        wrapped.body.inner is Gzip <==> {
            &&& headers::fields(res.headers).contains_key("content-encoding"@)
            &&& headers::fields(res.headers)["content-encoding"@][0].0 == vstd::utf8::encode_utf8(
                "gzip"@,
            )
            &&& future.codings().contains(Coding::Gzip)
        },
        wrapped.body.inner is Deflate <==> {
            &&& headers::fields(res.headers).contains_key("content-encoding"@)
            &&& headers::fields(res.headers)["content-encoding"@][0].0 == vstd::utf8::encode_utf8(
                "deflate"@,
            )
            &&& future.codings().contains(Coding::Deflate)
        },
        wrapped.body.inner is Brotli <==> {
            &&& headers::fields(res.headers).contains_key("content-encoding"@)
            &&& headers::fields(res.headers)["content-encoding"@][0].0 == vstd::utf8::encode_utf8(
                "br"@,
            )
            &&& future.codings().contains(Coding::Brotli)
        },
{
    options::lemma_tokens_differ();
    lemma_names();
    assert(name_of(Coding::Gzip) == "gzip"@);
    assert(name_of(Coding::Deflate) == "deflate"@);
    assert(name_of(Coding::Brotli) == "br"@);
}

/// Under whatever decoder it is put, the body is the one that was received, no error
/// of it is kept yet, and the rest of the response stays as it is.
pub proof fn body_is_the_one_received<H, B, E>(
    res: Response<H, B>,
    options: Options,
    wrapped: Response<H, DecodeBody<B, E>>,
)
    requires
        call_ensures(DecodeBody::<B, E>::wrap_response::<H>, (res, &options), wrapped),
    ensures
        wrapped.head == res.head,
        match wrapped.body.inner {
            BodyInner::Identity { inner } => inner == res.body,
            BodyInner::Gzip { inner } => inner.body == res.body && inner.error@ is None,
            BodyInner::Deflate { inner } => inner.body == res.body && inner.error@ is None,
            BodyInner::Brotli { inner } => inner.body == res.body && inner.error@ is None,
        },
{
}

/// The same of the response that a service answered.
pub proof fn answer_body_is_the_one_received<H, B, E, F>(
    future: ResponseFuture,
    res: Response<H, B>,
    wrapped: Response<H, DecodeBody<B, E>>,
)
    requires
        call_ensures(
            ResponseFuture::poll::<H, B, E, F>,
            (&future, Ok::<Response<H, B>, F>(res)),
            Ok::<Response<H, DecodeBody<B, E>>, F>(wrapped),
        ),
    ensures
        wrapped.head == res.head,
        match wrapped.body.inner {
            BodyInner::Identity { inner } => inner == res.body,
            BodyInner::Gzip { inner } => inner.body == res.body && inner.error@ is None,
            BodyInner::Deflate { inner } => inner.body == res.body && inner.error@ is None,
            BodyInner::Brotli { inner } => inner.body == res.body && inner.error@ is None,
        },
{
}

/// Where the body is not decoded, every header field is handed on as it is.
pub proof fn undecoded_response_keeps_its_headers<H, B, E>(
    res: Response<H, B>,
    options: Options,
    wrapped: Response<H, DecodeBody<B, E>>,
)
    requires
        call_ensures(DecodeBody::<B, E>::wrap_response::<H>, (res, &options), wrapped),
    ensures
        wrapped.body.inner is Identity ==> wrapped.headers == res.headers,
{
}

/// The same of the response that a service answered.
pub proof fn answer_undecoded_response_keeps_its_headers<H, B, E, F>(
    future: ResponseFuture,
    res: Response<H, B>,
    wrapped: Response<H, DecodeBody<B, E>>,
)
    requires
        call_ensures(
            ResponseFuture::poll::<H, B, E, F>,
            (&future, Ok::<Response<H, B>, F>(res)),
            Ok::<Response<H, DecodeBody<B, E>>, F>(wrapped),
        ),
    ensures
        wrapped.body.inner is Identity ==> wrapped.headers == res.headers,
{
}

/// Where the body is decoded, `Content-Encoding` and `Content-Length` are gone, and
/// every other field is handed on as it is, and none is gained.
pub proof fn decoded_response_loses_two_fields<H, B, E>(
    res: Response<H, B>,
    options: Options,
    wrapped: Response<H, DecodeBody<B, E>>,
    name: Seq<char>,
)
    requires
        call_ensures(DecodeBody::<B, E>::wrap_response::<H>, (res, &options), wrapped),
    ensures
        wrapped.body.inner !is Identity ==> {
            &&& headers::fields(wrapped.headers).contains_key(name) <==> headers::fields(
                res.headers,
            ).contains_key(name) && name != "content-encoding"@ && name != "content-length"@
            &&& headers::fields(wrapped.headers).contains_key(name) ==> headers::fields(
                wrapped.headers,
            )[name] == headers::fields(res.headers)[name]
        },
{
}

/// The same of the response that a service answered.
pub proof fn answer_decoded_response_loses_two_fields<H, B, E, F>(
    future: ResponseFuture,
    res: Response<H, B>,
    wrapped: Response<H, DecodeBody<B, E>>,
    name: Seq<char>,
)
    requires
        call_ensures(
            ResponseFuture::poll::<H, B, E, F>,
            (&future, Ok::<Response<H, B>, F>(res)),
            Ok::<Response<H, DecodeBody<B, E>>, F>(wrapped),
        ),
    ensures
        wrapped.body.inner !is Identity ==> {
            &&& headers::fields(wrapped.headers).contains_key(name) <==> headers::fields(
                res.headers,
            ).contains_key(name) && name != "content-encoding"@ && name != "content-length"@
            &&& headers::fields(wrapped.headers).contains_key(name) ==> headers::fields(
                wrapped.headers,
            )[name] == headers::fields(res.headers)[name]
        },
{
}

/// An answer of the service is handed on as an answer, and its error as that error.
pub proof fn error_of_the_service_is_handed_on<H, B, E, F>(
    future: ResponseFuture,
    answer: Result<Response<H, B>, F>,
    output: Result<Response<H, DecodeBody<B, E>>, F>,
)
    requires
        call_ensures(ResponseFuture::poll::<H, B, E, F>, (&future, answer), output),
    ensures
        answer is Ok <==> output is Ok,
        answer matches Err(error) ==> output == Err::<Response<H, DecodeBody<B, E>>, F>(error),
{
}

/// A response whose body is decoded is left alone by any other service, whatever
/// that service decodes.
pub proof fn body_is_decoded_once<H, B, E, C, D>(
    res: Response<H, B>,
    options: Options,
    wrapped: Response<H, DecodeBody<B, E>>,
    again: Response<H, C>,
    others: Options,
    twice: Response<H, DecodeBody<C, D>>,
)
    requires
        call_ensures(DecodeBody::<B, E>::wrap_response::<H>, (res, &options), wrapped),
        wrapped.body.inner !is Identity,
        again.headers == wrapped.headers,
        call_ensures(DecodeBody::<C, D>::wrap_response::<H>, (again, &others), twice),
    ensures
        twice.body.inner is Identity,
        twice.headers == again.headers,
{
}

/// What is asked for is what is decoded. Where a request gained an `Accept-Encoding`
/// field and its response names some coding, the body is put under a decoder exactly
/// where the name of that coding is an item of the field.
pub proof fn what_was_asked_for_is_decoded<S, H, B, E, F>(
    decode: Decode<S>,
    request: &mut http::HeaderMap<http::HeaderValue>,
    future: ResponseFuture,
    text: Seq<char>,
    coding: Coding,
    res: Response<H, B>,
    wrapped: Response<H, DecodeBody<B, E>>,
)
    requires
        call_ensures(Decode::<S>::call, (&decode, request), Ok(future)),
        !headers::fields(*old(request)).contains_key("accept-encoding"@),
        headers::fields(*final(request)).contains_key("accept-encoding"@),
        headers::fields(*final(request))["accept-encoding"@][0].0 == vstd::utf8::encode_utf8(text),
        headers::fields(res.headers).contains_key("content-encoding"@),
        headers::fields(res.headers)["content-encoding"@][0].0 == vstd::utf8::encode_utf8(
            name_of(coding),
        ),
        call_ensures(
            ResponseFuture::poll::<H, B, E, F>,
            (&future, Ok::<Response<H, B>, F>(res)),
            Ok::<Response<H, DecodeBody<B, E>>, F>(wrapped),
        ),
    ensures
        is_item(text, name_of(coding)) <==> wrapped.body.inner !is Identity,
        is_item(text, name_of(coding)) ==> match coding {
            Coding::Gzip => wrapped.body.inner is Gzip,
            Coding::Deflate => wrapped.body.inner is Deflate,
            Coding::Brotli => wrapped.body.inner is Brotli,
        },
{
    request_asks_for_the_codings(decode, request, future, text, name_of(coding));
    answer_body_is_decoded_where_named::<H, B, E, F>(future, res, wrapped);
    options::lemma_tokens_differ();
    lemma_names();
    assert(name_of(Coding::Gzip) == "gzip"@);
    assert(name_of(Coding::Deflate) == "deflate"@);
    assert(name_of(Coding::Brotli) == "br"@);
    assert forall|other: Coding| #[trigger] name_of(other) == name_of(coding) implies other
        == coding by {
        assert(other.token() == coding.token());
    }
}

/// The body that is under a decoder, or under none, is the one that is handed out,
/// and nothing but the body changes through a reference to it.
pub proof fn body_is_handed_out<B, E>(
    body: DecodeBody<B, E>,
    by_ref: &B,
    by_value: B,
    changed: &mut DecodeBody<B, E>,
    by_mut: &mut B,
)
    requires
        call_ensures(DecodeBody::<B, E>::get_ref, (&body,), by_ref),
        call_ensures(DecodeBody::<B, E>::into_inner, (body,), by_value),
        call_ensures(DecodeBody::<B, E>::get_mut, (changed,), by_mut),
    ensures
        *by_ref == by_value,
        match body.inner {
            BodyInner::Identity { inner } => by_value == inner,
            BodyInner::Gzip { inner } => by_value == inner.body,
            BodyInner::Deflate { inner } => by_value == inner.body,
            BodyInner::Brotli { inner } => by_value == inner.body,
        },
        match (old(changed).inner, final(changed).inner) {
            (BodyInner::Identity { inner: before }, BodyInner::Identity { inner: after }) => *old(
                by_mut,
            ) == before && *final(by_mut) == after,
            (BodyInner::Gzip { inner: before }, BodyInner::Gzip { inner: after }) => *old(by_mut)
                == before.body && *final(by_mut) == after.body && after.error@ == before.error@,
            (BodyInner::Deflate { inner: before }, BodyInner::Deflate { inner: after }) => *old(
                by_mut,
            ) == before.body && *final(by_mut) == after.body && after.error@ == before.error@,
            (BodyInner::Brotli { inner: before }, BodyInner::Brotli { inner: after }) => *old(by_mut)
                == before.body && *final(by_mut) == after.body && after.error@ == before.error@,
            _ => false,
        },
{
}

/// A body that is handed on as it is is under no decoder.
pub proof fn identity_is_under_no_decoder<B, E>(body: B, identity: DecodeBody<B, E>)
    requires
        call_ensures(DecodeBody::<B, E>::identity, (body,), identity),
    ensures
        identity.inner == (BodyInner::<B, E>::Identity { inner: body }),
{
}

/// Data and the end of a body go to the decoder as they are and leave what is kept
/// alone. An error of the body is kept in place of any other, and the decoder is
/// given the error that stands for the operating system's code 0.
pub proof fn poll_goes_to_the_decoder<E>(
    captured: &mut CapturedError<E>,
    polled: Option<Result<bytes::Bytes, E>>,
    item: Option<Result<bytes::Bytes, std::io::Error>>,
)
    requires
        call_ensures(CapturedError::<E>::poll_next, (captured, polled), item),
    ensures
        polled is None ==> item is None && final(captured)@ == old(captured)@,
        polled matches Some(Ok(data)) ==> item == Some(Ok::<bytes::Bytes, std::io::Error>(data))
            && final(captured)@ == old(captured)@,
        polled matches Some(Err(error)) ==> item == Some(
            Err::<bytes::Bytes, std::io::Error>(buffers::os_error(0)),
        ) && final(captured)@ == Some(error),
{
}

/// Decoded data goes to the reader byte for byte, and its end as the end, and both
/// leave what is kept alone. A failure is told as the error that is kept, or as a
/// failure to decode where none is, and nothing is kept after it.
pub proof fn decoded_goes_to_the_reader<E>(
    captured: &mut CapturedError<E>,
    polled: Option<Result<bytes::BytesMut, std::io::Error>>,
    data: Option<Result<bytes::Bytes, Error<E>>>,
)
    requires
        call_ensures(CapturedError::<E>::poll_data, (captured, polled), data),
    ensures
        polled is None ==> data is None && final(captured)@ == old(captured)@,
        polled matches Some(Ok(decoded)) ==> final(captured)@ == old(captured)@ && (
        data matches Some(Ok(shared)) && buffers::shared_bytes(shared) == buffers::growable_bytes(
            decoded,
        )),
        polled matches Some(Err(failure)) ==> final(captured)@ is None && match old(captured)@ {
            Some(error) => data == Some(Err::<bytes::Bytes, Error<E>>(Error::Body(error))),
            None => data == Some(Err::<bytes::Bytes, Error<E>>(Error::Compression(failure))),
        },
{
}

/// An error of the body is told by the next failure of the decoder, however the
/// decoder fails, and by no later one.
pub proof fn body_error_is_told_once<E>(
    first: &mut CapturedError<E>,
    error: E,
    item: Option<Result<bytes::Bytes, std::io::Error>>,
    second: &mut CapturedError<E>,
    failure: std::io::Error,
    told: Option<Result<bytes::Bytes, Error<E>>>,
    third: &mut CapturedError<E>,
    later_failure: std::io::Error,
    told_later: Option<Result<bytes::Bytes, Error<E>>>,
)
    requires
        call_ensures(
            CapturedError::<E>::poll_next,
            (first, Some(Err::<bytes::Bytes, E>(error))),
            item,
        ),
        *old(second) == *final(first),
        call_ensures(
            CapturedError::<E>::poll_data,
            (second, Some(Err::<bytes::BytesMut, std::io::Error>(failure))),
            told,
        ),
        *old(third) == *final(second),
        call_ensures(
            CapturedError::<E>::poll_data,
            (third, Some(Err::<bytes::BytesMut, std::io::Error>(later_failure))),
            told_later,
        ),
    ensures
        told == Some(Err::<bytes::Bytes, Error<E>>(Error::Body(error))),
        told_later == Some(Err::<bytes::Bytes, Error<E>>(Error::Compression(later_failure))),
{
}

/// Nothing is kept at first, and a sign is given exactly where something is kept.
pub proof fn sign_tells_that_an_error_is_kept<E>(
    fresh: CapturedError<E>,
    captured: CapturedError<E>,
    sign: Option<Placeholder>,
)
    requires
        call_ensures(CapturedError::<E>::new, (), fresh),
        call_ensures(CapturedError::<E>::masked, (&captured,), sign),
    ensures
        fresh@ is None,
        sign is Some <==> captured@ is Some,
{
}

/// What a body that is not decoded gives goes to the reader as it is, an error as an
/// error of the body. So do trailers.
pub proof fn undecoded_goes_to_the_reader<E>(
    polled: Option<Result<bytes::Bytes, E>>,
    data: Option<Result<bytes::Bytes, Error<E>>>,
    polled_trailers: Result<Option<http::HeaderMap<http::HeaderValue>>, E>,
    told_trailers: Result<Option<http::HeaderMap<http::HeaderValue>>, Error<E>>,
)
    requires
        call_ensures(identity_data::<E>, (polled,), data),
        call_ensures(trailers::<E>, (polled_trailers,), told_trailers),
    ensures
        polled is None <==> data is None,
        polled matches Some(Ok(shared)) ==> data == Some(Ok::<bytes::Bytes, Error<E>>(shared)),
        polled matches Some(Err(error)) ==> data == Some(
            Err::<bytes::Bytes, Error<E>>(Error::Body(error)),
        ),
        polled_trailers matches Ok(fields) ==> told_trailers == Ok::<
            Option<http::HeaderMap<http::HeaderValue>>,
            Error<E>,
        >(fields),
        polled_trailers matches Err(error) ==> told_trailers == Err::<
            Option<http::HeaderMap<http::HeaderValue>>,
            Error<E>,
        >(Error::Body(error)),
{
}

/// What a body that is read as a stream gives is handed on as it is, an error as what
/// the conversion makes of it.
pub proof fn stream_gives_what_the_body_gives<B, E, F: FnOnce(E) -> std::io::Error>(
    polled: Option<Result<bytes::Bytes, E>>,
    into_io: F,
    item: Option<Result<bytes::Bytes, std::io::Error>>,
)
    requires
        call_ensures(BodyAsStream::<B>::poll_next::<E, F>, (polled, into_io), item),
    ensures
        polled is None <==> item is None,
        polled matches Some(Ok(data)) ==> item == Some(Ok::<bytes::Bytes, std::io::Error>(data)),
        polled matches Some(Err(e)) ==> (item matches Some(Err(error)) && call_ensures(
            into_io,
            (e,),
            error,
        )),
{
}

/// Options and layers that nothing was set of have every coding.
pub proof fn defaults_have_every_coding(options: Options, layer: DecodeLayer, coding: Coding)
    requires
        call_ensures(<Options as Default>::default, (), options),
        call_ensures(<DecodeLayer as Default>::default, (), layer),
    ensures
        options@.contains(coding),
        layer.codings().contains(coding),
{
}

/// A clone has the codings of what it was made from, and a clone of its service.
pub proof fn clones_have_the_same_codings<S: Clone>(
    decode: Decode<S>,
    copy: Decode<S>,
    layer: DecodeLayer,
    layer_copy: DecodeLayer,
)
    requires
        call_ensures(<Decode<S> as Clone>::clone, (&decode,), copy),
        call_ensures(<DecodeLayer as Clone>::clone, (&layer,), layer_copy),
    ensures
        copy.codings() == decode.codings(),
        cloned(decode.service(), copy.service()),
        layer_copy.codings() == layer.codings(),
{
}

/// The text of an error is the text of the error within.
pub proof fn text_is_that_of_the_error_within<E: std::fmt::Display>(
    error: Error<E>,
    text: String,
)
    requires
        call_ensures(Error::<E>::to_string, (&error,), text),
    ensures
        match error {
            Error::Body(e) => vstd::string::to_string_from_display_ensures::<E>(&e, text),
            Error::Compression(e) => vstd::string::to_string_from_display_ensures::<
                std::io::Error,
            >(&e, text),
        },
{
}

} // verus!
