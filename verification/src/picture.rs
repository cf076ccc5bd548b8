use vstd::prelude::*;
use vstd::string::*;
use vstd::utf8::*;
use crate::cache::KeyedCache;
use crate::text::{chars_of, text_of};

verus! {

/// Whether `pat` stands in `s` at the place `at`.
pub open spec fn stands(s: Seq<char>, pat: Seq<char>, at: int) -> bool {
    0 <= at && at + pat.len() <= s.len() && s.subrange(at, at + pat.len()) == pat
}

/// The first place at or behind `from` at which `pat` stands in `s`.
pub open spec fn find_from(s: Seq<char>, pat: Seq<char>, from: int) -> Option<int>
    decreases s.len() + 1 - from,
{
    if from < 0 || from + pat.len() > s.len() {
        None
    } else if stands(s, pat, from) {
        Some(from)
    } else {
        find_from(s, pat, from + 1)
    }
}

/// What `find_from` finds is a place where the pattern stands, with no
/// such place between `from` and it; and where it finds nothing, the
/// pattern stands nowhere from `from` on.
pub proof fn lemma_find_from(s: Seq<char>, pat: Seq<char>, from: int)
    requires
        0 <= from,
    ensures
        match find_from(s, pat, from) {
            Some(i) => from <= i && stands(s, pat, i) && forall|j: int|
                from <= j < i ==> !#[trigger] stands(s, pat, j),
            None => forall|j: int| from <= j ==> !#[trigger] stands(s, pat, j),
        },
    decreases s.len() + 1 - from,
{
    if from + pat.len() > s.len() {
    } else if stands(s, pat, from) {
    } else {
        lemma_find_from(s, pat, from + 1);
    }
}

/// A text without the occurrences of one character.
pub open spec fn without(s: Seq<char>, c: char) -> Seq<char>
    decreases s.len(),
{
    if s.len() == 0 {
        Seq::empty()
    } else if s.last() == c {
        without(s.drop_last(), c)
    } else {
        without(s.drop_last(), c).push(s.last())
    }
}

/// From where a picture is fetched and under which name it is kept.
#[derive(Clone, Debug, PartialEq, Eq)]
pub struct ImageAddress {
    pub web_path: String,
    pub file_name: String,
}

/// Where the scheme of an address ends: behind the first `://`, and one
/// further where the address holds `:///` anywhere.
pub open spec fn scheme_end(req: Seq<char>) -> Option<int> {
    match find_from(req, "://"@, 0) {
        None => None,
        Some(idx) => Some(
            idx + if find_from(req, ":///"@, 0) is Some {
                4int
            } else {
                3int
            },
        ),
    }
}

/// The web address and the file name of a picture. An address of the
/// asset database, `resdb:///` and a name with an extension, is fetched
/// from the asset server without the extension; an address that begins
/// with `http` is fetched as it stands. The file name is what follows the
/// scheme, without slashes. Any other text names no picture.
pub open spec fn image_address(req: Seq<char>) -> Option<(Seq<char>, Seq<char>)> {
    if req.len() == 0 || !req.contains('.') {
        None
    } else {
        match scheme_end(req) {
            None => None,
            Some(split) => {
                let prefix = req.take(split);
                let path = req.skip(split);
                if prefix == "resdb:///"@ {
                    match find_from(path, "."@, 0) {
                        Some(dot) => Some(
                            ("https://assets.resonite.com/"@ + path.take(dot), without(path, '/')),
                        ),
                        None => None,
                    }
                } else if prefix.len() >= 4 && prefix.take(4) == "http"@ {
                    Some((req, without(path, '/')))
                } else {
                    None
                }
            },
        }
    }
}

/// Whether a pattern stands at a place in a list of characters.
fn stands_at(s: &Vec<char>, pat: &Vec<char>, at: usize) -> (r: bool)
    requires
        at + pat@.len() <= s@.len(),
    ensures
        r == (s@.subrange(at as int, at + pat@.len()) == pat@),
{
    let n = s.len();
    let mut k: usize = 0;
    while k < pat.len()
        invariant
            0 <= k <= pat@.len(),
            at + pat@.len() <= s@.len(),
            n == s@.len(),
            forall|j: int| 0 <= j < k ==> s@[at + j] == pat@[j],
        decreases pat.len() - k,
    {
        if s[at + k] != pat[k] {
            assert(s@.subrange(at as int, at + pat@.len())[k as int] != pat@[k as int]);
            return false;
        }
        k += 1;
    }
    assert(s@.subrange(at as int, at + pat@.len()) =~= pat@);
    true
}

/// The first place at or behind `from` at which a pattern stands.
pub fn find(s: &Vec<char>, pat: &Vec<char>, from: usize) -> (r: Option<usize>)
    ensures
        r is Some <==> find_from(s@, pat@, from as int) is Some,
        r matches Some(at) ==> find_from(s@, pat@, from as int) == Some(at as int) && at
            + pat@.len() <= s@.len(),
{
    if pat.len() > s.len() || from > s.len() - pat.len() {
        return None;
    }
    let last = s.len() - pat.len();
    let mut i = from;
    loop
        invariant
            from <= i <= last,
            last == s@.len() - pat@.len(),
            find_from(s@, pat@, from as int) == find_from(s@, pat@, i as int),
        decreases last - i,
    {
        if stands_at(s, pat, i) {
            return Some(i);
        }
        if i == last {
            assert(find_from(s@, pat@, i as int + 1) is None);
            return None;
        }
        i += 1;
    }
}

/// The characters of a list from `from` on, without the slashes, as a text.
fn file_name_of(chars: &Vec<char>, from: usize) -> (r: String)
    requires
        from <= chars@.len(),
    ensures
        r@ == without(chars@.skip(from as int), '/'),
{
    let mut out = String::new();
    let mut i = from;
    while i < chars.len()
        invariant
            from <= i <= chars@.len(),
            out@ == without(chars@.subrange(from as int, i as int), '/'),
        decreases chars.len() - i,
    {
        let ghost next = chars@.subrange(from as int, i as int + 1);
        assert(next.drop_last() =~= chars@.subrange(from as int, i as int));
        assert(next.last() == chars@[i as int]);
        if chars[i] != '/' {
            out.push(chars[i]);
        }
        i += 1;
    }
    assert(chars@.subrange(from as int, chars@.len() as int) =~= chars@.skip(from as int));
    out
}

/// Where the scheme of an address ends never lies behind the address.
pub proof fn lemma_scheme_end(req: Seq<char>)
    ensures
        scheme_end(req) matches Some(split) ==> 3 <= split <= req.len(),
{
    reveal_strlit("://");
    reveal_strlit(":///");
    lemma_find_from(req, "://"@, 0);
    lemma_find_from(req, ":///"@, 0);
    match find_from(req, "://"@, 0) {
        Some(idx) => {
            match find_from(req, ":///"@, 0) {
                Some(j) => {
                    assert(req.subrange(j, j + 3) =~= req.subrange(j, j + 4).take(3));
                    assert(":///"@.take(3) =~= "://"@);
                    assert(stands(req, "://"@, j));
                    assert(idx <= j);
                },
                None => {},
            }
        },
        None => {},
    }
}

/// Reads the address of a picture.
pub fn resolve_image(req: &str) -> (r: Option<ImageAddress>)
    ensures
        match image_address(req@) {
            Some(a) => r is Some && r->0.web_path@ == a.0 && r->0.file_name@ == a.1,
            None => r is None,
        },
{
    let chars = chars_of(req);
    let dot = chars_of(".");
    if chars.len() == 0 {
        return None;
    }
    proof {
        reveal_strlit(".");
        lemma_find_from(chars@, "."@, 0);
        lemma_scheme_end(chars@);
        assert forall|j: int| 0 <= j < chars@.len() implies #[trigger] stands(chars@, "."@, j) == (
        chars@[j] == '.') by {
            if chars@[j] == '.' {
                assert(chars@.subrange(j, j + 1) =~= "."@);
            } else {
                assert(chars@.subrange(j, j + 1)[0] == chars@[j]);
            }
        }
        assert forall|j: int| 0 <= j < chars@.len() && #[trigger] chars@[j] == '.' implies stands(
            chars@,
            "."@,
            j,
        ) by {}
        assert(forall|j: int| stands(chars@, "."@, j) ==> 0 <= j < chars@.len());
    }
    if find(&chars, &dot, 0).is_none() {
        return None;
    }
    let idx = match find(&chars, &chars_of("://"), 0) {
        Some(i) => i,
        None => {
            return None;
        },
    };
    let long = find(&chars, &chars_of(":///"), 0).is_some();
    proof {
        lemma_find_from(chars@, "://"@, 0);
        assert(scheme_end(chars@) == Some(idx + if long { 4int } else { 3int }));
    }
    let split = if long {
        idx + 4
    } else {
        idx + 3
    };
    let prefix = text_of(&chars, 0, split);
    assert(chars@.subrange(0, split as int) =~= chars@.take(split as int));
    let file_name = file_name_of(&chars, split);
    if crate::text::same_text(prefix.as_str(), "resdb:///") {
        let path = chars_of(text_of(&chars, split, chars.len()).as_str());
        assert(path@ =~= chars@.skip(split as int));
        match find(&path, &dot, 0) {
            Some(at) => {
                let mut web_path = "https://assets.resonite.com/".to_owned();
                web_path.append(text_of(&path, 0, at).as_str());
                assert(path@.subrange(0, at as int) =~= path@.take(at as int));
                Some(ImageAddress { web_path, file_name })
            },
            None => None,
        }
    } else if split >= 4 && crate::text::same_text(text_of(&chars, 0, 4).as_str(), "http") {
        assert(chars@.subrange(0, 4) =~= chars@.take(split as int).take(4));
        Some(ImageAddress { web_path: req.to_owned(), file_name })
    } else {
        proof {
            if split >= 4 {
                assert(chars@.subrange(0, 4) =~= chars@.take(split as int).take(4));
            }
        }
        None
    }
}

/// How far a picture is.
#[derive(Clone, Copy, Debug, PartialEq, Eq, Structural)]
pub enum LoadableImage {
    /// Completely unplanned, doesn't exist
    Unloaded,
    /// In progress
    Loading,
    /// Here ya go
    Loaded(u64),
}

/// The pictures that were asked for, each with its texture once it is
/// loaded.
pub struct ResDbImageCache {
    db: KeyedCache<Option<u64>>,
}

impl ResDbImageCache {
    /// The textures of the pictures that were asked for; `None` for one
    /// that is still being loaded.
    pub closed spec fn textures(&self) -> Map<Seq<char>, Option<u64>> {
        self.db@
    }

    /// The book of pictures is well-formed.
    pub closed spec fn wf(&self) -> bool {
        self.db.wf()
    }

    /// A cache in which no picture was asked for.
    pub fn new() -> (r: Self)
        ensures
            r.wf(),
            r.textures() == Map::<Seq<char>, Option<u64>>::empty(),
    {
        ResDbImageCache { db: KeyedCache::new() }
    }

    /// How far the picture at an address is. A picture that was never
    /// asked for is noted as being loaded, and is to be requested from the
    /// loader by the caller.
    pub fn get_image(&mut self, id: &String) -> (r: LoadableImage)
        requires
            old(self).wf(),
        ensures
            final(self).wf(),
            r == if old(self).textures().contains_key(id@) {
                match old(self).textures()[id@] {
                    Some(texture) => LoadableImage::Loaded(texture),
                    None => LoadableImage::Loading,
                }
            } else {
                LoadableImage::Unloaded
            },
            final(self).textures() == if old(self).textures().contains_key(id@) {
                old(self).textures()
            } else {
                old(self).textures().insert(id@, None)
            },
    {
        match self.db.get(id.as_str()) {
            Some(Some(texture)) => LoadableImage::Loaded(*texture),
            Some(None) => LoadableImage::Loading,
            None => {
                self.db.insert(id.clone(), None);
                LoadableImage::Unloaded
            },
        }
    }

    /// Notes the texture of a picture that the loader has loaded.
    pub fn loaded(&mut self, id: String, texture: u64)
        requires
            old(self).wf(),
        ensures
            final(self).wf(),
            final(self).textures() == old(self).textures().insert(id@, Some(texture)),
    {
        self.db.insert(id, Some(texture));
    }
}

/// What a character adds to a colour: its value where it is a decimal
/// digit, and 32 otherwise.
pub open spec fn digit_weight(c: char) -> nat {
    if '0' <= c && c <= '9' {
        (c as u32 - 48) as nat
    } else {
        32
    }
}

/// The sum of the weights of the characters of a text.
pub open spec fn weight_sum(s: Seq<char>) -> nat
    decreases s.len(),
{
    if s.len() == 0 {
        0
    } else {
        weight_sum(s.drop_last()) + digit_weight(s.last())
    }
}

/// The sum of the weights of the characters of a text, modulo 256.
fn channel(part: &str) -> (r: u8)
    ensures
        r == weight_sum(part@) % 256,
{
    let mut sum: u32 = 0;
    for c in it: part.chars()
        invariant
            it.seq() == part@,
            sum < 256,
            sum == weight_sum(part@.take(it.index() as int)) % 256,
    {
        let ghost done = part@.take(it.index() as int);
        let ghost next = part@.take(it.index() as int + 1);
        assert(next.drop_last() =~= done);
        assert(next.last() == c);
        let weight: u32 = if '0' <= c && c <= '9' {
            (c as u32) - 48
        } else {
            32
        };
        assert((weight_sum(done) + weight as nat) % 256 == ((weight_sum(done) % 256) + weight as nat)
            % 256) by (nonlinear_arith);
        sum = (sum + weight) % 256;
    }
    assert(part@.take(part@.len() as int) =~= part@);
    sum as u8
}

/// The colour that stands for a user id: the id is cut into three parts at
/// one and at two thirds of its bytes, and each part gives one of red,
/// green and blue by the sum of the weights of its characters, modulo 256.
pub open spec fn uid_color(bytes: Seq<u8>) -> (u8, u8, u8) {
    let k = bytes.len() as int / 3;
    (
        (weight_sum(decode_utf8(bytes.subrange(0, k))) % 256) as u8,
        (weight_sum(decode_utf8(bytes.subrange(k, 2 * k))) % 256) as u8,
        (weight_sum(decode_utf8(bytes.subrange(2 * k, bytes.len() as int))) % 256) as u8,
    )
}

/// The colour that stands for a user id, as red, green and blue. An id
/// that cannot be cut at one and at two thirds of its bytes, because a
/// character lies across the cut, has no colour.
pub fn uid_to_color(uid: &str) -> (r: Option<(u8, u8, u8)>)
    ensures
        r is Some <==> is_char_boundary(uid.spec_bytes(), uid.spec_bytes().len() as int / 3)
            && is_char_boundary(uid.spec_bytes(), 2 * (uid.spec_bytes().len() as int / 3)),
        r matches Some(color) ==> color == uid_color(uid.spec_bytes()),
{
    broadcast use {encode_utf8_decode_utf8, encode_utf8_valid_utf8};

    let split_pos: usize = uid.as_bytes().len() / 3;
    if !uid.is_char_boundary(split_pos) || !uid.is_char_boundary(2 * split_pos) {
        return None;
    }
    let bytes = Ghost(uid.spec_bytes());
    let (r, gb) = uid.split_at(split_pos);
    proof {
        let rest = bytes@.subrange(split_pos as int, bytes@.len() as int);
        assert(gb.spec_bytes() =~= rest);
        lemma_boundary_in_rest(bytes@, split_pos as int);
    }
    let (g, b) = gb.split_at(split_pos);
    proof {
        let k = split_pos as int;
        let rest = bytes@.subrange(k, bytes@.len() as int);
        assert(rest.subrange(0, k) =~= bytes@.subrange(k, 2 * k));
        assert(rest.subrange(k, rest.len() as int) =~= bytes@.subrange(
            2 * k,
            bytes@.len() as int,
        ));
        assert(r@ == decode_utf8(r.spec_bytes()));
        assert(g@ == decode_utf8(g.spec_bytes()));
        assert(b@ == decode_utf8(b.spec_bytes()));
    }
    Some((channel(r), channel(g), channel(b)))
}

/// A boundary between characters at twice `k` in a text is one at `k` in
/// what follows the first `k` bytes.
proof fn lemma_boundary_in_rest(bytes: Seq<u8>, k: int)
    requires
        valid_utf8(bytes),
        k == bytes.len() as int / 3,
        is_char_boundary(bytes, k),
        is_char_boundary(bytes, 2 * k),
    ensures
        valid_utf8(bytes.subrange(k, bytes.len() as int)),
        is_char_boundary(bytes.subrange(k, bytes.len() as int), k),
{
    let rest = bytes.subrange(k, bytes.len() as int);
    valid_utf8_split(bytes, k);
    if 2 * k < bytes.len() {
        is_char_boundary_iff_not_is_continuation_byte(bytes, 2 * k);
        is_char_boundary_iff_not_is_continuation_byte(rest, k);
        assert(rest[k] == bytes[2 * k]);
    } else {
        is_char_boundary_start_end_of_seq(rest);
    }
}

} // verus!
