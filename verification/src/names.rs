//! Application names, and the desktop file ids that an application may use.

use crate::interface::{invalid_argument, outcome, DynamicLauncherError, ErrorView};
use crate::text;
use crate::text::{is_digit, is_letter, split};
use vstd::prelude::*;
use vstd::string::*;
use vstd::utf8::*;

verus! {

/// The ending of every desktop file id.
pub const DESKTOP_SUFFIX: &'static str = ".desktop";

/// What is wrong with an application name.
#[derive(Debug, Clone, Copy, PartialEq, Eq, Structural)]
pub enum NameError {
    /// The name is empty or has more than 255 bytes.
    EmptyOrTooLong,
    /// The name begins with a dot.
    LeadingDot,
    /// The name has fewer than three elements.
    TooFewSegments,
    /// An element begins with a character that no element may begin with.
    BadInitial,
    /// An element holds a character that it may not hold.
    BadCharacter,
    /// The name ends in a dot.
    TrailingDot,
    /// Two dots follow each other.
    EmptySegment,
}

/// What is wrong with a desktop file id.
#[derive(Debug, Clone, Copy, PartialEq, Eq, Structural)]
pub enum DesktopFileIdError {
    /// The id does not end in `.desktop`.
    MissingSuffix,
    /// The id is not below the id of the application.
    NotBelowAppId,
    /// The id without its ending is no application name.
    InvalidName(NameError),
}

/// A character that an element may hold; `-` only in the last element.
pub open spec fn is_name_char(c: char, last_element: bool) -> bool {
    is_letter(c) || is_digit(c) || c == '_' || (last_element && c == '-')
}

/// An element of an application name: not empty, of the allowed characters, not beginning with a
/// digit.
pub open spec fn valid_element(element: Seq<char>, last_element: bool) -> bool {
    &&& element.len() >= 1
    &&& !is_digit(element[0])
    &&& forall|k: int|
        0 <= k < element.len() ==> is_name_char(#[trigger] element[k], last_element)
}

/// An application name: three or more elements separated by dots, at most 255 characters in all.
pub open spec fn valid_app_name(name: Seq<char>) -> bool {
    let elements = split(name, '.');
    &&& name.len() <= 255
    &&& elements.len() >= 3
    &&& forall|i: int|
        0 <= i < elements.len() ==> valid_element(
            #[trigger] elements[i],
            i == elements.len() - 1,
        )
}

/// Whether an element begins at position `i`.
pub open spec fn element_start(s: Seq<char>, i: int) -> bool {
    i == 0 || s[i - 1] == '.'
}

/// Whether position `i` lies behind the last dot.
pub open spec fn in_last_element(s: Seq<char>, i: int) -> bool {
    forall|j: int| i <= j < s.len() ==> #[trigger] s[j] != '.'
}

/// Whether the character at `i` may not stand there.
pub open spec fn bad_at(s: Seq<char>, i: int) -> bool {
    &&& 0 <= i < s.len()
    &&& s[i] != '.'
    &&& {
        ||| !is_name_char(s[i], in_last_element(s, i))
        ||| element_start(s, i) && is_digit(s[i])
    }
}

/// Whether `i` is the first position whose character may not stand there.
pub open spec fn first_bad_at(s: Seq<char>, i: int) -> bool {
    bad_at(s, i) && forall|j: int| 0 <= j < i ==> !bad_at(s, j)
}

/// Whether dots stand at `i` and `i + 1`.
pub open spec fn double_dot_at(s: Seq<char>, i: int) -> bool {
    0 <= i < s.len() - 1 && s[i] == '.' && s[i + 1] == '.'
}

/// What the check of an application name says: the first of these complaints that applies.
pub open spec fn name_check(s: Seq<char>) -> Result<(), NameError> {
    if s.len() == 0 || encode_utf8(s).len() > 255 {
        Err(NameError::EmptyOrTooLong)
    } else if s[0] == '.' {
        Err(NameError::LeadingDot)
    } else if !s.contains('.') {
        Err(NameError::TooFewSegments)
    } else if exists|i: int| first_bad_at(s, i) && element_start(s, i) {
        Err(NameError::BadInitial)
    } else if exists|i: int| first_bad_at(s, i) {
        Err(NameError::BadCharacter)
    } else if s.last() == '.' {
        Err(NameError::TrailingDot)
    } else if split(s, '.').len() < 3 {
        Err(NameError::TooFewSegments)
    } else if exists|i: int| double_dot_at(s, i) {
        Err(NameError::EmptySegment)
    } else {
        Ok(())
    }
}

/// What the check of a desktop file id says: the id must be `<app id>.<rest>.desktop`, and
/// `<app id>.<rest>` an application name.
pub open spec fn desktop_file_id_check(app_id: Seq<char>, id: Seq<char>) -> Result<
    (),
    DesktopFileIdError,
> {
    if !DESKTOP_SUFFIX@.is_suffix_of(id) {
        Err(DesktopFileIdError::MissingSuffix)
    } else if !app_id.push('.').is_prefix_of(stem_of(id)) {
        Err(DesktopFileIdError::NotBelowAppId)
    } else {
        match name_check(stem_of(id)) {
            Ok(_) => Ok(()),
            Err(e) => Err(DesktopFileIdError::InvalidName(e)),
        }
    }
}

/// A desktop file id without its ending.
pub open spec fn stem_of(id: Seq<char>) -> Seq<char> {
    id.take(id.len() - DESKTOP_SUFFIX@.len())
}

impl NameError {
    /// The complaint in words.
    pub open spec fn spec_message(self) -> Seq<char> {
        match self {
            NameError::EmptyOrTooLong => "Name empty or too long"@,
            NameError::LeadingDot => "Name starts with \".\""@,
            NameError::TooFewSegments => "Name must have at least 3 segments"@,
            NameError::BadInitial => "Initial character of segment is not alphabetic"@,
            NameError::BadCharacter => "Character of segment is not alphanumeric"@,
            NameError::TrailingDot => "Name may not end on a dot"@,
            NameError::EmptySegment => "Name has an empty segment"@,
        }
    }

    /// The complaint in words.
    pub fn message(&self) -> (r: &'static str)
        ensures
            r@ == self.spec_message(),
    {
        match self {
            NameError::EmptyOrTooLong => "Name empty or too long",
            NameError::LeadingDot => "Name starts with \".\"",
            NameError::TooFewSegments => "Name must have at least 3 segments",
            NameError::BadInitial => "Initial character of segment is not alphabetic",
            NameError::BadCharacter => "Character of segment is not alphanumeric",
            NameError::TrailingDot => "Name may not end on a dot",
            NameError::EmptySegment => "Name has an empty segment",
        }
    }
}

impl DesktopFileIdError {
    /// The complaint about `id` in words.
    pub open spec fn spec_message(self, id: Seq<char>) -> Seq<char> {
        match self {
            DesktopFileIdError::MissingSuffix => "Desktop file id missing .desktop suffix: "@ + id,
            DesktopFileIdError::NotBelowAppId =>
                "Flatpak sub app id validation: Desktop file id isn't suffixed with app id"@,
            DesktopFileIdError::InvalidName(_) => "Flatpak sub app id validation failed"@,
        }
    }

    /// The complaint about `id` in words.
    pub fn message(&self, id: &str) -> (r: String)
        ensures
            r@ == self.spec_message(id@),
    {
        match self {
            DesktopFileIdError::MissingSuffix =>
                "Desktop file id missing .desktop suffix: ".to_owned().concat(id),
            DesktopFileIdError::NotBelowAppId =>
                "Flatpak sub app id validation: Desktop file id isn't suffixed with app id".to_owned(),
            DesktopFileIdError::InvalidName(_) => "Flatpak sub app id validation failed".to_owned(),
        }
    }
}

/// The position of the last dot.
fn last_dot(chars: &Vec<char>) -> (r: Option<usize>)
    ensures
        match r {
            Some(d) => d < chars@.len() && chars@[d as int] == '.' && in_last_element(
                chars@,
                d as int + 1,
            ),
            None => !chars@.contains('.'),
        },
{
    let mut i: usize = chars.len();
    while i > 0
        invariant
            i <= chars@.len(),
            in_last_element(chars@, i as int),
        decreases i,
    {
        i -= 1;
        if chars[i] == '.' {
            return Some(i);
        }
    }
    None
}

/// Checks an application name.
pub fn flatpak_is_valid_name(s: &str) -> (r: Result<(), NameError>)
    ensures
        r == name_check(s@),
        r is Ok <==> valid_app_name(s@),
{
    proof {
        lemma_name_check_is_validity(s@);
    }
    let chars = text::to_chars(s);
    let n: usize = chars.len();
    if n == 0 || s.as_bytes().len() > 255 {
        return Err(NameError::EmptyOrTooLong);
    }
    if chars[0] == '.' {
        return Err(NameError::LeadingDot);
    }
    let d: usize = match last_dot(&chars) {
        Some(d) => d,
        None => {
            return Err(NameError::TooFewSegments);
        },
    };
    assert(s@.contains(s@[d as int]));
    let mut dots: usize = 0;
    let mut start: bool = true;
    let mut doubled: bool = false;
    let mut i: usize = 0;
    assert(s@.take(0) =~= Seq::<char>::empty());
    while i < n
        invariant
            n == chars@.len(),
            chars@ == s@,
            i <= n,
            n > 0,
            s@[0] != '.',
            d < n,
            s@[d as int] == '.',
            in_last_element(s@, d as int + 1),
            start == element_start(s@, i as int),
            dots <= i,
            split(s@.take(i as int), '.').len() == dots + 1,
            forall|j: int| 0 <= j < i ==> !bad_at(s@, j),
            doubled == exists|j: int| j + 1 < i && double_dot_at(s@, j),
            s@.len() > 0 && encode_utf8(s@).len() <= 255 && s@[0] != '.' && s@.contains('.'),
            name_check(s@) is Ok <==> valid_app_name(s@),
        decreases n - i,
    {
        let c = chars[i];
        let ghost longer = s@.take(i as int + 1);
        assert(longer.drop_last() =~= s@.take(i as int));
        assert(longer.last() == c);
        proof {
            text::lemma_split_nonempty(s@.take(i as int), '.');
            if i <= d {
                assert(s@[d as int] == '.');
            }
            assert(c != '.' ==> in_last_element(s@, i as int) == (i > d));
        }
        if c == '.' {
            dots += 1;
            if start {
                assert(double_dot_at(s@, i as int - 1));
                doubled = true;
            }
            start = true;
        } else if start {
            if !text::letter(c) && c != '_' && !(i > d && c == '-') {
                assert(first_bad_at(s@, i as int) && element_start(s@, i as int));
                return Err(NameError::BadInitial);
            }
            start = false;
        } else {
            if !text::letter(c) && !text::digit(c) && c != '_' && !(i > d && c == '-') {
                proof {
                    assert(first_bad_at(s@, i as int) && !element_start(s@, i as int));
                    assert forall|j: int| first_bad_at(s@, j) implies j == i by {
                        if j < i {
                            assert(!bad_at(s@, j));
                        }
                        if j > i {
                            assert(!bad_at(s@, i as int));
                        }
                    }
                }
                return Err(NameError::BadCharacter);
            }
        }
        assert(!bad_at(s@, i as int));
        i += 1;
    }
    assert(s@.take(n as int) =~= s@);
    if start {
        return Err(NameError::TrailingDot);
    }
    if dots < 2 {
        return Err(NameError::TooFewSegments);
    }
    if doubled {
        return Err(NameError::EmptySegment);
    }
    Ok(())
}

/// Checks that `app_id` may use `desktop_file_id`.
pub fn validate_desktop_file_id(app_id: &str, desktop_file_id: &str) -> (r: Result<
    (),
    DesktopFileIdError,
>)
    requires
        app_id@.len() > 0 || !DESKTOP_SUFFIX@.is_suffix_of(desktop_file_id@),
    ensures
        r == desktop_file_id_check(app_id@, desktop_file_id@),
{
    let stem = match text::strip_suffix(desktop_file_id, DESKTOP_SUFFIX) {
        Some(stem) => stem,
        None => {
            return Err(DesktopFileIdError::MissingSuffix);
        },
    };
    assert(stem@ =~= stem_of(desktop_file_id@));
    let expected_prefix = app_id.to_owned().concat(".");
    proof {
        reveal_strlit(".");
        assert(expected_prefix@ =~= app_id@.push('.'));
    }
    if !text::starts_with(stem, expected_prefix.as_str()) {
        return Err(DesktopFileIdError::NotBelowAppId);
    }
    match flatpak_is_valid_name(stem) {
        Ok(_) => Ok(()),
        Err(e) => Err(DesktopFileIdError::InvalidName(e)),
    }
}

/// What a method of the portal answers to a desktop file id that it does not accept.
pub open spec fn desktop_file_id_outcome(app_id: Seq<char>, id: Seq<char>) -> Result<
    (),
    ErrorView,
> {
    match desktop_file_id_check(app_id, id) {
        Ok(_) => Ok(()),
        Err(e) => Err(
            ErrorView::InvalidArgument("Validating desktop file id failed: "@ + e.spec_message(id)),
        ),
    }
}

/// Checks that `app_id` may use `desktop_file_id`, with the answer of a method that finds it may
/// not.
pub fn require_desktop_file_id(app_id: &str, desktop_file_id: &str) -> (r: Result<
    (),
    DynamicLauncherError,
>)
    requires
        app_id@.len() > 0 || !DESKTOP_SUFFIX@.is_suffix_of(desktop_file_id@),
    ensures
        outcome(r) == desktop_file_id_outcome(app_id@, desktop_file_id@),
{
    match validate_desktop_file_id(app_id, desktop_file_id) {
        Ok(_) => Ok(()),
        Err(e) => Err(
            invalid_argument(
                "Validating desktop file id failed: ".to_owned().concat(
                    e.message(desktop_file_id).as_str(),
                ),
            ),
        ),
    }
}

/// A piece of the allowed characters, `-` not among them, that does not begin with a digit; it may
/// be empty.
spec fn plain_piece(p: Seq<char>) -> bool {
    &&& forall|m: int| 0 <= m < p.len() ==> is_name_char(#[trigger] p[m], false)
    &&& p.len() > 0 ==> !is_digit(p[0])
}

/// The character at `i` may stand in an element that is not the last.
spec fn plain_at(s: Seq<char>, i: int) -> bool {
    s[i] != '.' ==> is_name_char(s[i], false) && (element_start(s, i) ==> !is_digit(s[i]))
}

/// A dot at `i` closes an element that is not empty.
spec fn closes_element(s: Seq<char>, i: int) -> bool {
    s[i] == '.' ==> i > 0 && s[i - 1] != '.'
}

/// The pieces of a string, read off its positions.
proof fn lemma_pieces(a: Seq<char>)
    ensures
        split(a, '.').len() >= 1,
        split(a, '.').last().len() == 0 <==> (a.len() == 0 || a.last() == '.'),
        (forall|k: int| 0 <= k < split(a, '.').len() ==> plain_piece(#[trigger] split(a, '.')[k]))
            <==> (forall|i: int| 0 <= i < a.len() ==> #[trigger] plain_at(a, i)),
        (forall|k: int|
            0 <= k < split(a, '.').len() - 1 ==> (#[trigger] split(a, '.')[k]).len() > 0) <==> (
        forall|i: int| 0 <= i < a.len() ==> #[trigger] closes_element(a, i)),
    decreases a.len(),
{
    let pieces = split(a, '.');
    if a.len() == 0 {
        assert(plain_piece(pieces[0]));
    } else {
        let b = a.drop_last();
        let c = a.last();
        let before = split(b, '.');
        let n = before.len();
        lemma_pieces(b);
        assert forall|i: int| 0 <= i < b.len() implies plain_at(a, i) == plain_at(b, i) by {}
        assert forall|i: int| 0 <= i < b.len() implies closes_element(a, i) == closes_element(
            b,
            i,
        ) by {}
        let at = a.len() - 1;
        assert((forall|i: int| 0 <= i < a.len() ==> #[trigger] plain_at(a, i)) <==> ((forall|i: int|
            0 <= i < b.len() ==> #[trigger] plain_at(b, i)) && plain_at(a, at))) by {
            if (forall|i: int| 0 <= i < a.len() ==> #[trigger] plain_at(a, i)) {
                assert forall|i: int| 0 <= i < b.len() implies #[trigger] plain_at(b, i) by {
                    assert(plain_at(a, i));
                }
            }
            if (forall|i: int| 0 <= i < b.len() ==> #[trigger] plain_at(b, i)) && plain_at(a, at) {
                assert forall|i: int| 0 <= i < a.len() implies #[trigger] plain_at(a, i) by {
                    if i < b.len() {
                        assert(plain_at(b, i));
                    }
                }
            }
        }
        assert((forall|i: int| 0 <= i < a.len() ==> #[trigger] closes_element(a, i)) <==> ((forall|
            i: int,
        |
            0 <= i < b.len() ==> #[trigger] closes_element(b, i)) && closes_element(a, at))) by {
            if (forall|i: int| 0 <= i < a.len() ==> #[trigger] closes_element(a, i)) {
                assert forall|i: int| 0 <= i < b.len() implies #[trigger] closes_element(b, i) by {
                    assert(closes_element(a, i));
                }
            }
            if (forall|i: int| 0 <= i < b.len() ==> #[trigger] closes_element(b, i))
                && closes_element(a, at) {
                assert forall|i: int| 0 <= i < a.len() implies #[trigger] closes_element(a, i) by {
                    if i < b.len() {
                        assert(closes_element(b, i));
                    }
                }
            }
        }
        assert forall|k: int| 0 <= k < n - 1 implies pieces[k] == before[k] by {}
        if c == '.' {
            assert(pieces[n - 1] == before[n - 1]);
            assert(pieces[n as int].len() == 0);
            assert(plain_piece(pieces[n as int]));
            if forall|k: int| 0 <= k < n ==> plain_piece(#[trigger] before[k]) {
                assert forall|k: int| 0 <= k < pieces.len() implies plain_piece(
                    #[trigger] pieces[k],
                ) by {
                    if k < n {
                        assert(plain_piece(before[k]));
                    }
                }
            }
            if forall|k: int| 0 <= k < pieces.len() ==> plain_piece(#[trigger] pieces[k]) {
                assert forall|k: int| 0 <= k < n implies plain_piece(#[trigger] before[k]) by {
                    assert(plain_piece(pieces[k]));
                }
            }
            if forall|k: int| 0 <= k < pieces.len() - 1 ==> (#[trigger] pieces[k]).len() > 0 {
                assert forall|k: int| 0 <= k < n - 1 implies (#[trigger] before[k]).len() > 0 by {
                    assert(pieces[k].len() > 0);
                }
                assert(pieces[n - 1].len() > 0);
            }
            assert(closes_element(a, at) <==> before.last().len() > 0);
        } else {
            assert(pieces.last() == before.last().push(c));
            let p = pieces.last();
            assert(plain_piece(p) <==> plain_piece(before.last()) && plain_at(a, at)) by {
                if plain_piece(p) {
                    assert forall|m: int| 0 <= m < before.last().len() implies is_name_char(
                        #[trigger] before.last()[m],
                        false,
                    ) by {
                        assert(is_name_char(p[m], false));
                    }
                    assert(is_name_char(p[p.len() - 1], false));
                }
            }
            if forall|k: int| 0 <= k < n ==> plain_piece(#[trigger] before[k]) {
                if plain_at(a, at) {
                    assert forall|k: int| 0 <= k < pieces.len() implies plain_piece(
                        #[trigger] pieces[k],
                    ) by {
                        if k < n - 1 {
                            assert(plain_piece(before[k]));
                        }
                    }
                }
            }
            if forall|k: int| 0 <= k < pieces.len() ==> plain_piece(#[trigger] pieces[k]) {
                assert forall|k: int| 0 <= k < n implies plain_piece(#[trigger] before[k]) by {
                    assert(plain_piece(pieces[k]));
                }
                assert(plain_piece(pieces[n - 1]));
            }
            if forall|k: int| 0 <= k < pieces.len() - 1 ==> (#[trigger] pieces[k]).len() > 0 {
                assert forall|k: int| 0 <= k < n - 1 implies (#[trigger] before[k]).len() > 0 by {
                    assert(pieces[k].len() > 0);
                }
            }
        }
    }
}

/// Where a character may not stand, there is a first such position.
proof fn lemma_first_bad(s: Seq<char>, i: int)
    requires
        bad_at(s, i),
    ensures
        exists|j: int| first_bad_at(s, j),
    decreases i,
{
    if exists|j: int| 0 <= j < i && bad_at(s, j) {
        let j = choose|j: int| 0 <= j < i && bad_at(s, j);
        lemma_first_bad(s, j);
    } else {
        assert(first_bad_at(s, i));
    }
}

/// The position of the last dot of a string that has one.
proof fn lemma_last_dot(s: Seq<char>) -> (d: int)
    requires
        s.contains('.'),
    ensures
        0 <= d < s.len(),
        s[d] == '.',
        in_last_element(s, d + 1),
    decreases s.len(),
{
    if s.last() == '.' {
        s.len() - 1
    } else {
        let i = choose|i: int| 0 <= i < s.len() && s[i] == '.';
        assert(s.drop_last()[i] == '.');
        let d = lemma_last_dot(s.drop_last());
        assert forall|j: int| d + 1 <= j < s.len() implies #[trigger] s[j] != '.' by {
            if j < s.len() - 1 {
                assert(s.drop_last()[j] == s[j]);
            }
        }
        d
    }
}

/// A name whose characters may all stand where they stand is as long in bytes as in characters.
proof fn lemma_name_is_ascii(s: Seq<char>)
    requires
        forall|i: int| !bad_at(s, i),
    ensures
        encode_utf8(s).len() == s.len(),
{
    assert forall|i: int| 0 <= i < s.len() implies '\0' <= #[trigger] s[i] <= '\u{7f}' by {
        assert(!bad_at(s, i));
    }
    is_ascii_chars_encode_utf8(s);
}

/// The check of a name accepts exactly the application names.
pub proof fn lemma_name_check_is_validity(s: Seq<char>)
    ensures
        name_check(s) is Ok <==> valid_app_name(s),
{
    let elements = split(s, '.');
    if !s.contains('.') {
        text::lemma_split_single(s, '.');
    } else {
        let d = lemma_last_dot(s);
        let a = s.take(d);
        let b = s.skip(d + 1);
        assert(s =~= a.push('.') + b);
        text::lemma_split_parts(a, '.', b);
        assert(!b.contains('.')) by {
            if b.contains('.') {
                let k = choose|k: int| 0 <= k < b.len() && b[k] == '.';
                assert(s[d + 1 + k] == '.');
            }
        }
        text::lemma_split_single(b, '.');
        let pieces = split(a, '.');
        assert(elements =~= pieces.push(b));
        lemma_pieces(a);
        if name_check(s) is Ok {
            assert forall|i: int| !bad_at(s, i) by {
                if bad_at(s, i) {
                    lemma_first_bad(s, i);
                }
            }
            lemma_name_is_ascii(s);
            assert forall|i: int| 0 <= i < a.len() implies #[trigger] plain_at(a, i) by {
                assert(!bad_at(s, i));
                assert(s[d] == '.');
            }
            assert forall|i: int| 0 <= i < a.len() implies #[trigger] closes_element(a, i) by {
                assert(!double_dot_at(s, i - 1));
            }
            assert(!double_dot_at(s, d - 1));
            assert forall|i: int| 0 <= i < elements.len() implies valid_element(
                #[trigger] elements[i],
                i == elements.len() - 1,
            ) by {
                if i < pieces.len() {
                    assert(plain_piece(pieces[i]));
                    if i < pieces.len() - 1 {
                        assert(pieces[i].len() > 0);
                    }
                } else {
                    assert(!bad_at(s, d + 1));
                    assert forall|k: int| 0 <= k < b.len() implies is_name_char(
                        #[trigger] b[k],
                        true,
                    ) by {
                        assert(!bad_at(s, d + 1 + k));
                        assert(in_last_element(s, d + 1 + k));
                    }
                }
            }
        }
        if valid_app_name(s) {
            assert forall|k: int| 0 <= k < pieces.len() implies plain_piece(#[trigger] pieces[k])
                && pieces[k].len() > 0 by {
                assert(valid_element(elements[k], false));
            }
            assert(valid_element(elements[pieces.len() as int], true));
            assert(a.len() > 0 && a.last() != '.');
            assert(closes_element(a, 0));
            assert forall|i: int| !bad_at(s, i) by {
                if 0 <= i < d {
                    assert(plain_at(a, i));
                } else if d < i < s.len() {
                    assert(b[i - d - 1] == s[i]);
                    assert(is_name_char(b[i - d - 1], true));
                    assert(in_last_element(s, i));
                }
            }
            lemma_name_is_ascii(s);
            assert forall|i: int| !double_dot_at(s, i) by {
                if double_dot_at(s, i) {
                    if i + 1 < d {
                        assert(closes_element(a, i + 1));
                    } else if i + 1 == d {
                        assert(a.last() == s[i]);
                    } else {
                        assert(s[i + 1] != '.');
                    }
                }
            }
            assert(s.last() == b.last());
            assert(is_name_char(b[b.len() - 1], true));
        }
    }
}

/// An application name holds only letters, digits, dots, underscores and dashes.
pub proof fn lemma_app_name_characters(s: Seq<char>, i: int)
    requires
        valid_app_name(s),
        0 <= i < s.len(),
    ensures
        s[i] == '.' || is_name_char(s[i], true),
{
    lemma_name_check_is_validity(s);
    if bad_at(s, i) {
        lemma_first_bad(s, i);
    }
}

/// An application name does not begin with a dot.
pub proof fn law_app_name_begins_with_no_dot(name: Seq<char>)
    requires
        valid_app_name(name),
    ensures
        name.len() > 0,
        name[0] != '.',
{
    lemma_name_check_is_validity(name);
}

/// A well-known name on the message bus.
pub open spec fn valid_bus_name(name: Seq<char>) -> bool {
    let elements = split(name, '.');
    &&& name.len() <= 255
    &&& elements.len() >= 2
    &&& forall|i: int| 0 <= i < elements.len() ==> valid_element(#[trigger] elements[i], true)
}

/// Every application name is a well-known bus name. The other way round, a well-known bus name is
/// an application name if and only if it has three elements or more and `-` in the last one alone.
pub proof fn law_app_names_are_bus_names(name: Seq<char>)
    ensures
        valid_app_name(name) ==> valid_bus_name(name),
        valid_bus_name(name) ==> (valid_app_name(name) <==> split(name, '.').len() >= 3 && (forall|
            i: int,
        |
            0 <= i < split(name, '.').len() - 1 ==> !(#[trigger] split(name, '.')[i]).contains(
                '-',
            ))),
{
    let elements = split(name, '.');
    let n = elements.len();
    if valid_app_name(name) {
        assert forall|i: int| 0 <= i < n implies valid_element(#[trigger] elements[i], true) by {
            let element = elements[i];
            assert(valid_element(element, i == n - 1));
            assert forall|k: int| 0 <= k < element.len() implies is_name_char(
                #[trigger] element[k],
                true,
            ) by {
                assert(is_name_char(element[k], i == n - 1));
            }
        }
        assert forall|i: int| 0 <= i < n - 1 implies !(#[trigger] elements[i]).contains('-') by {
            assert(valid_element(elements[i], i == n - 1));
        }
    }
    if valid_bus_name(name) && n >= 3 && (forall|i: int|
        0 <= i < n - 1 ==> !(#[trigger] elements[i]).contains('-')) {
        assert forall|i: int| 0 <= i < n implies valid_element(
            #[trigger] elements[i],
            i == n - 1,
        ) by {
            let element = elements[i];
            assert(valid_element(element, true));
            assert forall|k: int| 0 <= k < element.len() implies is_name_char(
                #[trigger] element[k],
                i == n - 1,
            ) by {
                assert(element.contains(element[k]));
            }
        }
    }
}

/// An accepted desktop file id is the id of the application, a dot, something more, and the
/// ending `.desktop`.
pub proof fn law_accepted_id_is_below_app_id(app_id: Seq<char>, id: Seq<char>) -> (rest: Seq<char>)
    requires
        desktop_file_id_check(app_id, id) is Ok,
    ensures
        rest.len() > 0,
        id == app_id.push('.') + rest + DESKTOP_SUFFIX@,
{
    let stem = stem_of(id);
    let rest = stem.skip(app_id.len() as int + 1);
    assert(stem =~= app_id.push('.') + rest);
    assert(id =~= stem + DESKTOP_SUFFIX@);
    assert(rest.len() > 0) by {
        if rest.len() == 0 {
            assert(stem.last() == app_id.push('.').last());
        }
    }
    rest
}

/// An accepted desktop file id is the name of a file, never a path: it holds no `/`, and it is
/// neither empty nor one of the names `.` and `..`.
pub proof fn law_accepted_id_is_a_file_name(app_id: Seq<char>, id: Seq<char>)
    requires
        desktop_file_id_check(app_id, id) is Ok,
    ensures
        !id.contains('/'),
        id.len() > DESKTOP_SUFFIX@.len() > 2,
{
    let stem = stem_of(id);
    reveal_strlit(".desktop");
    lemma_name_check_is_validity(stem);
    assert(id =~= stem + DESKTOP_SUFFIX@);
    assert forall|i: int| 0 <= i < id.len() implies id[i] != '/' by {
        if i < stem.len() {
            lemma_app_name_characters(stem, i);
        }
    }
}

/// Two applications can both use a desktop file id only where one of their ids lies below the
/// other, or they are the same.
pub proof fn law_unrelated_apps_share_no_id(a: Seq<char>, b: Seq<char>, id: Seq<char>)
    requires
        desktop_file_id_check(a, id) is Ok,
        desktop_file_id_check(b, id) is Ok,
    ensures
        a.push('.').is_prefix_of(b.push('.')) || b.push('.').is_prefix_of(a.push('.')),
{
    let stem = stem_of(id);
    let x = a.push('.');
    let y = b.push('.');
    if x.len() <= y.len() {
        assert forall|i: int| 0 <= i < x.len() implies x[i] == y[i] by {
            assert(stem.subrange(0, x.len() as int)[i] == stem[i]);
            assert(stem.subrange(0, y.len() as int)[i] == stem[i]);
        }
        assert(x =~= y.subrange(0, x.len() as int));
    } else {
        assert forall|i: int| 0 <= i < y.len() implies x[i] == y[i] by {
            assert(stem.subrange(0, x.len() as int)[i] == stem[i]);
            assert(stem.subrange(0, y.len() as int)[i] == stem[i]);
        }
        assert(y =~= x.subrange(0, y.len() as int));
    }
}

/// There are as many pieces more than two as there are dots more than one.
proof fn lemma_pieces_and_dots(s: Seq<char>)
    ensures
        split(s, '.').len() >= 2 <==> s.contains('.'),
        split(s, '.').len() >= 3 <==> exists|i: int, j: int|
            0 <= i < j < s.len() && #[trigger] s[i] == '.' && #[trigger] s[j] == '.',
    decreases s.len(),
{
    if s.len() > 0 {
        let a = s.drop_last();
        lemma_pieces_and_dots(a);
        text::lemma_split_nonempty(a, '.');
        assert(a.contains('.') ==> exists|i: int| 0 <= i < a.len() && a[i] == '.');
        if s.contains('.') && !a.contains('.') {
            let i = choose|i: int| 0 <= i < s.len() && s[i] == '.';
            if i < a.len() {
                assert(a[i] == '.');
            }
        }
        if a.contains('.') {
            let i = choose|i: int| 0 <= i < a.len() && a[i] == '.';
            assert(s[i] == '.');
            if s.last() == '.' {
                assert(s[s.len() - 1] == '.');
            }
        }
        if s.last() == '.' {
            assert(s.contains(s[s.len() - 1]));
        }
        if split(a, '.').len() >= 3 {
            let (i, j) = choose|i: int, j: int|
                0 <= i < j < a.len() && #[trigger] a[i] == '.' && #[trigger] a[j] == '.';
            assert(s[i] == '.' && s[j] == '.');
        }
        if exists|i: int, j: int|
            0 <= i < j < s.len() && #[trigger] s[i] == '.' && #[trigger] s[j] == '.' {
            let (i, j) = choose|i: int, j: int|
                0 <= i < j < s.len() && #[trigger] s[i] == '.' && #[trigger] s[j] == '.';
            assert(a[i] == '.');
            if j < a.len() {
                assert(a[j] == '.');
            }
        }
    }
}

/// An application name, character by character. It has 1 to 255 characters: ASCII letters and
/// digits, underscores, hyphens and dots. Two dots or more part it into elements; no dot follows a
/// hyphen, no element is empty, and none begins with a digit.
pub proof fn law_names_by_characters(name: &str, r: Result<(), NameError>)
    requires
        call_ensures(flatpak_is_valid_name, (name,), r),
    ensures
        ({
            let s = name@;
            r is Ok <==> {
                &&& 1 <= s.len() <= 255
                &&& forall|i: int|
                    #![trigger s[i]]
                    0 <= i < s.len() ==> 'a' <= s[i] <= 'z' || 'A' <= s[i] <= 'Z' || '0' <= s[i]
                        <= '9' || s[i] == '_' || s[i] == '-' || s[i] == '.'
                &&& forall|i: int, j: int|
                    0 <= i < j < s.len() && #[trigger] s[i] == '-' ==> #[trigger] s[j] != '.'
                &&& forall|i: int|
                    #![trigger s[i]]
                    0 <= i < s.len() && (i == 0 || s[i - 1] == '.') ==> s[i] != '.' && !('0' <= s[i]
                        <= '9')
                &&& s[s.len() - 1] != '.'
                &&& exists|i: int, j: int|
                    0 <= i < j < s.len() && #[trigger] s[i] == '.' && #[trigger] s[j] == '.'
            }
        }),
{
    let s = name@;
    lemma_pieces_and_dots(s);
    if r is Ok {
        assert forall|i: int| !bad_at(s, i) by {
            if bad_at(s, i) {
                lemma_first_bad(s, i);
            }
        }
        lemma_name_is_ascii(s);
        assert forall|i: int|
            #![trigger s[i]]
            0 <= i < s.len() implies 'a' <= s[i] <= 'z' || 'A' <= s[i] <= 'Z' || '0' <= s[i] <= '9'
            || s[i] == '_' || s[i] == '-' || s[i] == '.' by {
            assert(!bad_at(s, i));
        }
        assert forall|i: int, j: int|
            0 <= i < j < s.len() && #[trigger] s[i] == '-' implies #[trigger] s[j] != '.' by {
            assert(!bad_at(s, i));
        }
        assert forall|i: int|
            #![trigger s[i]]
            0 <= i < s.len() && (i == 0 || s[i - 1] == '.') implies s[i] != '.' && !('0' <= s[i]
            <= '9') by {
            assert(!bad_at(s, i));
            if i > 0 && s[i] == '.' {
                assert(double_dot_at(s, i - 1));
            }
        }
    }
    if {
        &&& 1 <= s.len() <= 255
        &&& forall|i: int|
            #![trigger s[i]]
            0 <= i < s.len() ==> 'a' <= s[i] <= 'z' || 'A' <= s[i] <= 'Z' || '0' <= s[i] <= '9'
                || s[i] == '_' || s[i] == '-' || s[i] == '.'
        &&& forall|i: int, j: int|
            0 <= i < j < s.len() && #[trigger] s[i] == '-' ==> #[trigger] s[j] != '.'
        &&& forall|i: int|
            #![trigger s[i]]
            0 <= i < s.len() && (i == 0 || s[i - 1] == '.') ==> s[i] != '.' && !('0' <= s[i] <= '9')
        &&& s[s.len() - 1] != '.'
        &&& exists|i: int, j: int|
            0 <= i < j < s.len() && #[trigger] s[i] == '.' && #[trigger] s[j] == '.'
    } {
        assert forall|i: int| !bad_at(s, i) by {
            if 0 <= i < s.len() && s[i] == '-' {
                assert(in_last_element(s, i));
            }
        }
        lemma_name_is_ascii(s);
        let (i, j) = choose|i: int, j: int|
            0 <= i < j < s.len() && #[trigger] s[i] == '.' && #[trigger] s[j] == '.';
        assert(s.contains(s[i]));
        assert forall|k: int| !double_dot_at(s, k) by {
            if double_dot_at(s, k) {
                assert(s[k + 1] == '.');
            }
        }
    }
}

/// What is said of a name that is refused is true of it.
pub proof fn law_name_complaints_are_true(name: &str, r: Result<(), NameError>)
    requires
        call_ensures(flatpak_is_valid_name, (name,), r),
    ensures
        ({
            let s = name@;
            let fits = 1 <= s.len() && encode_utf8(s).len() <= 255;
            &&& r == Err::<(), NameError>(NameError::EmptyOrTooLong) <==> !fits
            &&& r == Err::<(), NameError>(NameError::LeadingDot) <==> fits && s[0] == '.'
            &&& r == Err::<(), NameError>(NameError::TooFewSegments) ==> !exists|i: int, j: int|
                0 <= i < j < s.len() && #[trigger] s[i] == '.' && #[trigger] s[j] == '.'
            &&& r == Err::<(), NameError>(NameError::BadInitial) ==> exists|i: int|
                0 <= i < s.len() && (i == 0 || s[i - 1] == '.') && !('a' <= #[trigger] s[i] <= 'z'
                    || 'A' <= s[i] <= 'Z' || s[i] == '_' || s[i] == '.')
            &&& r == Err::<(), NameError>(NameError::BadCharacter) ==> exists|i: int|
                0 < i < s.len() && s[i - 1] != '.' && !('a' <= #[trigger] s[i] <= 'z' || 'A' <= s[i]
                    <= 'Z' || '0' <= s[i] <= '9' || s[i] == '_' || s[i] == '.')
            &&& r == Err::<(), NameError>(NameError::TrailingDot) ==> s[s.len() - 1] == '.'
            &&& r == Err::<(), NameError>(NameError::EmptySegment) ==> exists|i: int|
                0 <= i < s.len() - 1 && #[trigger] s[i] == '.' && s[i + 1] == '.'
        }),
{
    let s = name@;
    lemma_pieces_and_dots(s);
    if r == Err::<(), NameError>(NameError::BadInitial) {
        let i = choose|i: int| first_bad_at(s, i) && element_start(s, i);
        assert(bad_at(s, i));
    }
    if r == Err::<(), NameError>(NameError::BadCharacter) {
        let i = choose|i: int| first_bad_at(s, i);
        assert(bad_at(s, i) && !element_start(s, i));
    }
    if r == Err::<(), NameError>(NameError::EmptySegment) {
        let i = choose|i: int| double_dot_at(s, i);
        assert(s[i] == '.');
    }
    if r == Err::<(), NameError>(NameError::TooFewSegments) && !s.contains('.') {
        assert forall|i: int| 0 <= i < s.len() implies s[i] != '.' by {
            assert(s.contains(s[i]));
        }
    }
}

/// An application may use every desktop file id that is its own id, a dot, something more and the
/// ending `.desktop`, where that makes an application name before the ending.
pub proof fn law_own_ids_are_accepted(app_id: Seq<char>, rest: Seq<char>, id: Seq<char>)
    requires
        id == app_id + seq!['.'] + rest + ".desktop"@,
        valid_app_name(app_id + seq!['.'] + rest),
    ensures
        desktop_file_id_check(app_id, id) is Ok,
{
    let stem = app_id + seq!['.'] + rest;
    assert(stem_of(id) =~= stem);
    assert(DESKTOP_SUFFIX@ =~= id.subrange(id.len() - DESKTOP_SUFFIX@.len(), id.len() as int));
    assert(app_id.push('.') =~= stem.subrange(0, app_id.len() as int + 1));
    lemma_name_check_is_validity(stem);
}

/// A desktop file id is accepted if and only if it is a name with the ending `.desktop`, the name
/// begins with the id of the application and a dot, and it is an application name; what is wrong
/// with it is said in this order.
pub proof fn law_ids_are_names_below_the_app(
    app_id: &str,
    id: &str,
    stem: &str,
    name_check_result: Result<(), NameError>,
    r: Result<(), DesktopFileIdError>,
)
    requires
        call_ensures(validate_desktop_file_id, (app_id, id), r),
        call_ensures(flatpak_is_valid_name, (stem,), name_check_result),
    ensures
        r == Err::<(), DesktopFileIdError>(DesktopFileIdError::MissingSuffix) <==> !exists|
            n: Seq<char>,
        |
            id@ == #[trigger] (n + ".desktop"@),
        id@ == stem@ + ".desktop"@ ==> {
            let below = exists|rest: Seq<char>| stem@ == #[trigger] (app_id@ + seq!['.'] + rest);
            &&& r == Err::<(), DesktopFileIdError>(DesktopFileIdError::NotBelowAppId) <==> !below
            &&& below ==> match name_check_result {
                Ok(_) => r is Ok,
                Err(e) => r == Err::<(), DesktopFileIdError>(DesktopFileIdError::InvalidName(e)),
            }
        },
{
    let end = ".desktop"@;
    if DESKTOP_SUFFIX@.is_suffix_of(id@) {
        assert(id@ =~= stem_of(id@) + end);
    }
    if exists|n: Seq<char>| id@ == #[trigger] (n + end) {
        let n = choose|n: Seq<char>| id@ == #[trigger] (n + end);
        assert(end =~= id@.subrange(id@.len() - end.len(), id@.len() as int));
    }
    if id@ == stem@ + end {
        assert(stem_of(id@) =~= stem@);
        let front = app_id@.push('.');
        if front.is_prefix_of(stem@) {
            let rest = stem@.skip(front.len() as int);
            assert(front == stem@.subrange(0, front.len() as int));
            assert(app_id@ + seq!['.'] =~= front);
            assert(stem@ =~= front + rest);
            assert(stem@ == app_id@ + seq!['.'] + rest);
        }
        if exists|rest: Seq<char>| stem@ == #[trigger] (app_id@ + seq!['.'] + rest) {
            let rest = choose|rest: Seq<char>| stem@ == #[trigger] (app_id@ + seq!['.'] + rest);
            assert(front =~= stem@.subrange(0, front.len() as int));
        }
        assert(name_check_result == name_check(stem@));
    }
}

/// What a method answers to a desktop file id: an invalid argument, with what is wrong, if and only
/// if the id is not accepted.
pub proof fn law_id_answers(
    app_id: &str,
    id: &str,
    check: Result<(), DesktopFileIdError>,
    r: Result<(), DynamicLauncherError>,
)
    requires
        call_ensures(validate_desktop_file_id, (app_id, id), check),
        call_ensures(require_desktop_file_id, (app_id, id), r),
    ensures
        match check {
            Ok(_) => r is Ok,
            Err(e) => r matches Err(DynamicLauncherError::InvalidArgument { message }) && message@
                == "Validating desktop file id failed: "@ + match e {
                DesktopFileIdError::MissingSuffix => "Desktop file id missing .desktop suffix: "@
                    + id@,
                DesktopFileIdError::NotBelowAppId =>
                    "Flatpak sub app id validation: Desktop file id isn't suffixed with app id"@,
                DesktopFileIdError::InvalidName(_) => "Flatpak sub app id validation failed"@,
            },
        },
{
}

} // verus!
