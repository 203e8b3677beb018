use vstd::prelude::*;

verus! {

/// One object record of a level string: its `key,value` pairs in order.
#[derive(Debug)]
pub struct RawObject {
    pub properties: Vec<(String, String)>,
}

impl View for RawObject {
    type V = Seq<(Seq<char>, Seq<char>)>;

    open spec fn view(&self) -> Seq<(Seq<char>, Seq<char>)> {
        pairs_view(self.properties@)
    }
}

pub open spec fn pairs_view(p: Seq<(String, String)>) -> Seq<(Seq<char>, Seq<char>)> {
    p.map_values(|kv: (String, String)| (kv.0@, kv.1@))
}

pub open spec fn strings_view(v: Seq<String>) -> Seq<Seq<char>> {
    v.map_values(|t: String| t@)
}

pub open spec fn objects_view(v: Seq<RawObject>) -> Seq<Seq<(Seq<char>, Seq<char>)>> {
    v.map_values(|o: RawObject| o@)
}

/// The pieces of `s` between occurrences of `sep`, as `str::split` gives them:
/// never empty, and one more piece than there are separators.
pub open spec fn split_on(s: Seq<char>, sep: char) -> Seq<Seq<char>>
    decreases s.len(),
{
    if s.len() == 0 {
        seq![Seq::empty()]
    } else {
        let rest = split_on(s.drop_last(), sep);
        if s.last() == sep {
            rest.push(Seq::empty())
        } else {
            rest.update(rest.len() - 1, rest.last().push(s.last()))
        }
    }
}

/// Consecutive tokens taken two by two as `(key, value)`; an odd last token is dropped.
pub open spec fn pair_up(t: Seq<Seq<char>>) -> Seq<(Seq<char>, Seq<char>)> {
    Seq::new(t.len() / 2, |i: int| (t[2 * i], t[2 * i + 1]))
}

/// The properties of one `;`-separated segment: its `,`-separated tokens in pairs.
pub open spec fn properties_of(segment: Seq<char>) -> Seq<(Seq<char>, Seq<char>)> {
    pair_up(split_on(segment, ','))
}

/// The records of a sequence of segments: one for each segment with at least
/// one property, in order.
pub open spec fn objects_of(segments: Seq<Seq<char>>) -> Seq<Seq<(Seq<char>, Seq<char>)>>
    decreases segments.len(),
{
    if segments.len() == 0 {
        seq![]
    } else {
        let prev = objects_of(segments.drop_last());
        let p = properties_of(segments.last());
        if p.len() > 0 {
            prev.push(p)
        } else {
            prev
        }
    }
}

/// The records of a decompressed level string.
pub open spec fn level_objects(s: Seq<char>) -> Seq<Seq<(Seq<char>, Seq<char>)>> {
    objects_of(split_on(s, ';'))
}

proof fn lemma_split_nonempty(s: Seq<char>, sep: char)
    ensures
        split_on(s, sep).len() >= 1,
    decreases s.len(),
{
    if s.len() > 0 {
        lemma_split_nonempty(s.drop_last(), sep);
    }
}

proof fn lemma_split_push(s: Seq<char>, sep: char, c: char)
    ensures
        c == sep ==> split_on(s.push(c), sep) == split_on(s, sep).push(Seq::empty()),
        c != sep ==> split_on(s.push(c), sep) == split_on(s, sep).update(
            split_on(s, sep).len() - 1,
            split_on(s, sep).last().push(c),
        ),
{
    assert(s.push(c).drop_last() =~= s);
}

/// Relies on `String::push`: appends one character.
#[verifier::external_body]
fn push_char(s: &mut String, c: char)
    ensures
        final(s)@ == old(s)@.push(c),
{
    s.push(c);
}

/// Pairs up tokens as `(key, value)`, dropping an odd last token.
fn pair_tokens(tokens: &Vec<String>) -> (r: Vec<(String, String)>)
    ensures
        pairs_view(r@) == pair_up(strings_view(tokens@)),
{
    let mut r: Vec<(String, String)> = Vec::new();
    let n: usize = tokens.len() / 2;
    let mut i: usize = 0;
    while i < n
        invariant
            n == tokens.len() / 2,
            i <= n,
            pairs_view(r@) =~= pair_up(strings_view(tokens@)).take(i as int),
        decreases n - i,
    {
        let k = tokens[2 * i].clone();
        let v = tokens[2 * i + 1].clone();
        let ghost before = r@;
        r.push((k, v));
        proof {
            assert(strings_view(tokens@)[2 * i as int] == k@);
            assert(strings_view(tokens@)[2 * i + 1] == v@);
            assert(r@ =~= before.push((k, v)));
            assert(pairs_view(r@) =~= pairs_view(before).push((k@, v@)));
        }
        i = i + 1;
        proof {
            assert(pairs_view(r@) =~= pair_up(strings_view(tokens@)).take(i as int));
        }
    }
    proof {
        assert(pair_up(strings_view(tokens@)).take(n as int) =~= pair_up(strings_view(tokens@)));
    }
    r
}

/// Splits a decompressed level string into object records: records are
/// separated by `;`, and each record's tokens by `,`, read as `key,value`
/// pairs (an odd last token is dropped). Records without a pair, blank ones
/// among them, are left out.
pub fn parse_objects(level_string: &str) -> (r: Vec<RawObject>)
    ensures
        objects_view(r@) == level_objects(level_string@),
{
    let mut objects: Vec<RawObject> = Vec::new();
    let mut tokens: Vec<String> = Vec::new();
    let mut cur = String::new();
    let ghost mut seg: Seq<char> = Seq::empty();
    for c in it: level_string.chars()
        invariant
            it.seq() == level_string@,
            objects_of(split_on(level_string@.take(it.index() as int), ';').drop_last())
                == objects_view(objects@),
            split_on(level_string@.take(it.index() as int), ';').last() == seg,
            split_on(seg, ',') == strings_view(tokens@).push(cur@),
    {
        let ghost p = level_string@.take(it.index() as int);
        proof {
            assert(level_string@.take(it.index() + 1) =~= p.push(c));
            lemma_split_push(p, ';', c);
            lemma_split_push(seg, ',', c);
            lemma_split_nonempty(p, ';');
        }
        if c == ';' {
            tokens.push(cur);
            cur = String::new();
            let properties = pair_tokens(&tokens);
            proof {
                assert(strings_view(tokens@) =~= split_on(seg, ','));
                assert(split_on(p.push(c), ';').drop_last() =~= split_on(p, ';'));
            }
            if properties.len() > 0 {
                objects.push(RawObject { properties });
                proof {
                    assert(objects_view(objects@) =~= objects_of(split_on(p, ';')));
                }
            }
            tokens = Vec::new();
            proof {
                seg = Seq::empty();
                assert(split_on(seg, ',') =~= strings_view(tokens@).push(cur@));
            }
        } else if c == ',' {
            tokens.push(cur);
            cur = String::new();
            proof {
                seg = seg.push(c);
                assert(split_on(p.push(c), ';').drop_last() =~= split_on(p, ';').drop_last());
                assert(split_on(seg, ',') =~= strings_view(tokens@).push(cur@));
            }
        } else {
            push_char(&mut cur, c);
            proof {
                seg = seg.push(c);
                assert(split_on(p.push(c), ';').drop_last() =~= split_on(p, ';').drop_last());
                assert(split_on(seg, ',') =~= strings_view(tokens@).push(cur@));
            }
        }
    }
    proof {
        assert(level_string@.take(level_string@.len() as int) =~= level_string@);
        lemma_split_nonempty(level_string@, ';');
    }
    tokens.push(cur);
    let properties = pair_tokens(&tokens);
    proof {
        assert(strings_view(tokens@) =~= split_on(seg, ','));
    }
    if properties.len() > 0 {
        objects.push(RawObject { properties });
        proof {
            assert(objects_view(objects@) =~= level_objects(level_string@));
        }
    }
    objects
}

/// Errors of decoding a level's data string.
#[derive(Debug)]
pub enum ParserError {
    MissingData,
    Base64Error(base64::DecodeError),
    GzipError(std::io::Error),
    MalformedLevel,
}

#[verifier::external_type_specification]
#[verifier::external_body]
pub struct ExDecodeError(base64::DecodeError);

#[verifier::external_type_specification]
#[verifier::external_body]
pub struct ExIoError(std::io::Error);

/// The bytes that URL-safe, padded base64 decoding gives for a text, or `None`
/// where the text is not valid in that alphabet.
pub uninterp spec fn base64_url_decoded(s: Seq<char>) -> Option<Seq<u8>>;

/// The text that gzip decompression of some bytes gives, or `None` where the
/// bytes are not one valid gzip stream of UTF-8 text.
pub uninterp spec fn gunzipped_text(b: Seq<u8>) -> Option<Seq<char>>;

/// Characters with the Unicode White_Space property.
pub open spec fn is_white_space(c: char) -> bool {
    let u = c as u32;
    (0x9 <= u && u <= 0xd) || u == 0x20 || u == 0x85 || u == 0xa0 || u == 0x1680 || (0x2000 <= u
        && u <= 0x200a) || u == 0x2028 || u == 0x2029 || u == 0x202f || u == 0x205f || u == 0x3000
}

pub open spec fn trim_start(s: Seq<char>) -> Seq<char>
    decreases s.len(),
{
    if s.len() > 0 && is_white_space(s[0]) {
        trim_start(s.drop_first())
    } else {
        s
    }
}

pub open spec fn trim_end(s: Seq<char>) -> Seq<char>
    decreases s.len(),
{
    if s.len() > 0 && is_white_space(s.last()) {
        trim_end(s.drop_last())
    } else {
        s
    }
}

/// `s` without its leading and trailing white space.
pub open spec fn trimmed(s: Seq<char>) -> Seq<char> {
    trim_end(trim_start(s))
}

/// The four characters that open a gzip stream once it is base64-encoded.
pub open spec fn gzip_header() -> Seq<char> {
    seq!['H', '4', 's', 'I']
}

pub open spec fn header_at(s: Seq<char>, i: int) -> bool {
    0 <= i && i + 4 <= s.len() && s.subrange(i, i + 4) == gzip_header()
}

pub open spec fn first_header_at(s: Seq<char>, i: int) -> bool {
    header_at(s, i) && forall|j: int| 0 <= j < i ==> !header_at(s, j)
}

/// The part of a level's data string that holds the encoded stream: from the
/// first gzip header on where there is one, else the whole string trimmed.
pub open spec fn payload_of(s: Seq<char>) -> Seq<char> {
    if exists|i: int| header_at(s, i) {
        let i = choose|i: int| first_header_at(s, i);
        s.subrange(i, s.len() as int)
    } else {
        trimmed(s)
    }
}

/// What decoding a level's data string gives: the decompressed level text,
/// or the stage that failed.
pub open spec fn level_data_result(r: Result<String, ParserError>, s: Seq<char>) -> bool {
    match base64_url_decoded(payload_of(s)) {
        None => r is Err && r->Err_0 is Base64Error,
        Some(b) => match gunzipped_text(b) {
            None => r is Err && r->Err_0 is GzipError,
            Some(t) => r is Ok && r->Ok_0@ == t,
        },
    }
}

/// Relies on `str::trim`: drops leading and trailing White_Space characters.
#[verifier::external_body]
fn trim_str(s: &str) -> (r: &str)
    ensures
        r@ == trimmed(s@),
{
    s.trim()
}

/// Relies on `base64::Engine::decode` with the `URL_SAFE` engine (URL-safe
/// alphabet, canonical padding).
#[verifier::external_body]
fn decode_base64_url(s: &str) -> (r: Result<Vec<u8>, base64::DecodeError>)
    ensures
        match r {
            Ok(b) => base64_url_decoded(s@) == Some(b@),
            Err(_) => base64_url_decoded(s@) is None,
        },
{
    base64::Engine::decode(&base64::engine::general_purpose::URL_SAFE, s)
}

/// Relies on `flate2::read::GzDecoder` read to the end into a `String`: the
/// decompressed first gzip member, which must be UTF-8.
#[verifier::external_body]
fn gunzip_text(b: &Vec<u8>) -> (r: Result<String, std::io::Error>)
    ensures
        match r {
            Ok(t) => gunzipped_text(b@) == Some(t@),
            Err(_) => gunzipped_text(b@) is None,
        },
{
    let mut decoder = flate2::read::GzDecoder::new(&b[..]);
    let mut text = String::new();
    std::io::Read::read_to_string(&mut decoder, &mut text).map(|_| text)
}

/// Char index of the first gzip header in `s`, if any.
fn find_header(s: &str) -> (r: Option<usize>)
    ensures
        match r {
            Some(i) => first_header_at(s@, i as int),
            None => forall|j: int| !header_at(s@, j),
        },
{
    let ghost sv = s@;
    let n: usize = s.unicode_len();
    let mut third_back: char = ' ';
    let mut second_back: char = ' ';
    let mut first_back: char = ' ';
    let mut found: Option<usize> = None;
    let mut k: usize = 0;
    for c in it: s.chars()
        invariant_except_break
            k == it.index(),
            found is None,
        invariant
            it.seq() == sv,
            sv == s@,
            sv.len() == n,
            k <= sv.len(),
            k >= 1 ==> first_back == sv[k - 1],
            k >= 2 ==> second_back == sv[k - 2],
            k >= 3 ==> third_back == sv[k - 3],
            forall|j: int| 0 <= j && j + 4 <= k ==> !header_at(sv, j),
        ensures
            found is None ==> forall|j: int| 0 <= j && j + 4 <= sv.len() ==> !header_at(sv, j),
            found matches Some(i) ==> first_header_at(sv, i as int),
    {
        proof {
            assert(c == sv[k as int]);
        }
        if k >= 3 && third_back == 'H' && second_back == '4' && first_back == 's' && c == 'I' {
            proof {
                assert(sv.subrange(k - 3, k + 1) =~= gzip_header());
            }
            found = Some(k - 3);
            proof {
                assert(first_header_at(sv, k - 3));
            }
            break;
        }
        proof {
            if k >= 3 {
                let j = k - 3;
                if header_at(sv, j) {
                    assert(sv.subrange(j, j + 4)[0] == sv[j]);
                    assert(sv.subrange(j, j + 4)[1] == sv[j + 1]);
                    assert(sv.subrange(j, j + 4)[2] == sv[j + 2]);
                    assert(sv.subrange(j, j + 4)[3] == sv[j + 3]);
                }
            }
        }
        third_back = second_back;
        second_back = first_back;
        first_back = c;
        k = k + 1;
    }
    found
}

/// Extracts the level text from a level's data string: takes the string from
/// its first gzip header on (the whole string trimmed where there is none),
/// decodes it as URL-safe base64 and decompresses the gzip stream.
pub fn parse_level_data(encoded_data: &str) -> (r: Result<String, ParserError>)
    ensures
        level_data_result(r, encoded_data@),
{
    let clean_data: &str = match find_header(encoded_data) {
        Some(idx) => {
            let n = encoded_data.unicode_len();
            let sub = encoded_data.substring_char(idx, n);
            proof {
                let c = choose|i: int| first_header_at(encoded_data@, i);
                assert(first_header_at(encoded_data@, c));
                if c < idx {
                    assert(!header_at(encoded_data@, c));
                } else if c > idx {
                    assert(!header_at(encoded_data@, idx as int));
                }
                assert(c == idx);
            }
            sub
        },
        None => trim_str(encoded_data),
    };
    let decoded_bytes = match decode_base64_url(clean_data) {
        Ok(b) => b,
        Err(e) => {
            return Err(ParserError::Base64Error(e));
        },
    };
    match gunzip_text(&decoded_bytes) {
        Ok(t) => Ok(t),
        Err(e) => Err(ParserError::GzipError(e)),
    }
}

} // verus!
