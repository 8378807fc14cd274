use vstd::prelude::*;
use vstd::utf8::{decode_utf8, valid_utf8};
use route_recognizer::Params;
use crate::routes::ascii::{ascii_form, escaped};

verus! {

/// The parameter collection that the route matcher fills for a matched path.
#[verifier::external_type_specification]
#[verifier::external_body]
pub struct ExParams(Params);

/// What a parameter collection holds: each captured name with its raw value.
pub uninterp spec fn params_map(params: Params) -> Map<Seq<char>, Seq<char>>;

/// The text that percent-decoding a raw value gives.
pub uninterp spec fn unescaped(raw: Seq<char>) -> Seq<char>;

/// The name/value pairs that a form-encoded body decodes to, in the order of the body.
pub uninterp spec fn form_pairs(data: Seq<u8>) -> Seq<(Seq<char>, Seq<char>)>;

/// The pairs of a vector of owned strings, each string taken by its characters.
pub open spec fn pairs_view(pairs: Seq<(String, String)>) -> Seq<(Seq<char>, Seq<char>)> {
    Seq::new(pairs.len(), |i: int| (pairs[i].0@, pairs[i].1@))
}

/// The value of the first pair whose name is `key`, if there is one.
pub open spec fn first_value(pairs: Seq<(Seq<char>, Seq<char>)>, key: Seq<char>) -> Option<
    Seq<char>,
>
    decreases pairs.len(),
{
    if pairs.len() == 0 {
        None
    } else if pairs[0].0 == key {
        Some(pairs[0].1)
    } else {
        first_value(pairs.drop_first(), key)
    }
}

/// `Params::find` of route_recognizer: the raw value stored under `key`, or nothing
/// where the collection has no such name.
#[verifier::external_body]
fn params_find<'a>(params: &'a Params, key: &str) -> (found: Option<&'a str>)
    ensures
        match found {
            Some(raw) => params_map(*params).contains_key(key@) && raw@ == params_map(
                *params,
            )[key@],
            None => !params_map(*params).contains_key(key@),
        },
{
    params.find(key)
}

/// `percent_decode_str` of percent_encoding followed by its `decode_utf8_lossy`: every
/// `%` with two hexadecimal digits behind it becomes the byte they spell, and the bytes
/// are read as text. A value without any `%` comes back as it is. A `%` without two
/// such digits stays, a `+` stays a `+` (a path is no form), and bytes that are not
/// UTF-8 become U+FFFD. This decoder was chosen because it is the one that `url`
/// decodes form pairs with, so that values from the path and from the body are
/// resolved by the same code and to the same standard.
#[verifier::external_body]
fn percent_unescape(raw: &str) -> (text: String)
    ensures
        text@ == unescaped(raw@),
        !raw@.contains('%') ==> text@ == raw@,
{
    percent_encoding::percent_decode_str(raw).decode_utf8_lossy().into_owned()
}

/// `form_urlencoded::parse` of url, collected into owned pairs. An empty body has no
/// pairs.
#[verifier::external_body]
fn parse_form(data: &[u8]) -> (pairs: Vec<(String, String)>)
    ensures
        pairs_view(pairs@) == form_pairs(data@),
        data@.len() == 0 ==> pairs@.len() == 0,
{
    url::form_urlencoded::parse(data).into_owned().collect()
}

/// `std::str::from_utf8`: the bytes as text where they are well-formed UTF-8, nothing
/// otherwise.
#[verifier::external_body]
fn utf8_text(data: &[u8]) -> (text: Option<&str>)
    ensures
        text is Some <==> valid_utf8(data@),
        text is Some ==> text->0@ == decode_utf8(data@),
{
    std::str::from_utf8(data).ok()
}

/// The named values captured from the path of a matched request.
#[derive(Debug)]
pub struct UriParams {
    internal: Params,
}

impl View for UriParams {
    type V = Map<Seq<char>, Seq<char>>;

    closed spec fn view(&self) -> Map<Seq<char>, Seq<char>> {
        params_map(self.internal)
    }
}

impl UriParams {
    /// The raw value captured under `key`: the value held under the key as it is given
    /// or, where there is none, under its ASCII form, which is how a routing table
    /// records the name of a capture.
    pub open spec fn raw(&self, key: Seq<char>) -> Option<Seq<char>> {
        if self@.contains_key(key) {
            Some(self@[key])
        } else if self@.contains_key(escaped(key)) {
            Some(self@[escaped(key)])
        } else {
            None
        }
    }

    /// The percent-decoded value captured under `key`; the empty key is the unnamed
    /// wildcard. Nothing where the matched pattern has no such name.
    pub fn get(&self, key: &str) -> (value: Option<String>)
        ensures
            match value {
                Some(text) => self.raw(key@) is Some && text@ == unescaped(self.raw(key@)->0),
                None => self.raw(key@) is None,
            },
            value is Some && !self.raw(key@)->0.contains('%') ==> value->0@ == self.raw(key@)->0,
    {
        match params_find(&self.internal, key) {
            Some(raw) => Some(percent_unescape(raw)),
            None => {
                let ascii = ascii_form(key);
                match params_find(&self.internal, ascii.as_str()) {
                    Some(raw) => Some(percent_unescape(raw)),
                    None => None,
                }
            },
        }
    }
}

/// Wraps the parameters that the matcher captured.
pub fn url_params_from_route_recognizer(params: Params) -> (url: UriParams)
    ensures
        url@ == params_map(params),
{
    UriParams { internal: params }
}

/// The raw body of a request.
pub struct BodyParams {
    data: Vec<u8>,
}

impl View for BodyParams {
    type V = Seq<u8>;

    closed spec fn view(&self) -> Seq<u8> {
        self.data@
    }
}

impl BodyParams {
    /// The body read as form-encoded name/value pairs. The body itself is left as it
    /// is.
    pub fn as_form(&self) -> (form: FormData)
        ensures
            form@ == form_pairs(self@),
            self@.len() == 0 ==> form@.len() == 0,
    {
        FormData { internal: parse_form(self.data.as_slice()) }
    }

    /// The body as text: present exactly when the bytes are well-formed UTF-8, and then
    /// the text they encode, with no character replaced.
    pub fn as_text(&self) -> (text: Option<&str>)
        ensures
            text is Some <==> valid_utf8(self@),
            text is Some ==> text->0@ == decode_utf8(self@),
    {
        utf8_text(self.data.as_slice())
    }
}

/// Wraps the bytes of a request body.
pub fn body_params_from_data(data: Vec<u8>) -> (body: BodyParams)
    ensures
        body@ == data@,
{
    BodyParams { data }
}

/// The pairs of a form-encoded body, in the order in which the body gives them.
pub struct FormData {
    internal: Vec<(String, String)>,
}

impl View for FormData {
    type V = Seq<(Seq<char>, Seq<char>)>;

    closed spec fn view(&self) -> Seq<(Seq<char>, Seq<char>)> {
        pairs_view(self.internal@)
    }
}

impl FormData {
    /// The value of the first pair named `key`: where a name occurs more than once, the
    /// earliest occurrence wins.
    pub fn get(&self, key: &str) -> (value: Option<String>)
        ensures
            match value {
                Some(text) => first_value(self@, key@) == Some(text@),
                None => first_value(self@, key@) is None,
            },
    {
        let wanted: String = key.to_owned();
        let mut i: usize = 0;
        assert(self@.skip(0) =~= self@);
        while i < self.internal.len()
            invariant
                i <= self.internal.len(),
                wanted@ == key@,
                first_value(self@, key@) == first_value(self@.skip(i as int), key@),
            decreases self.internal.len() - i,
        {
            let pair = &self.internal[i];
            proof {
                let rest = self@.skip(i as int);
                assert(rest[0] == self@[i as int]);
                assert(rest.drop_first() =~= self@.skip(i + 1));
            }
            if pair.0 == wanted {
                return Some(pair.1.clone());
            }
            i += 1;
        }
        None
    }
}

} // verus!
