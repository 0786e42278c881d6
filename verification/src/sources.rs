//! Naming and filtering of the capturable displays and windows.
use vstd::prelude::*;

verus! {

/// A display that can be captured.
#[derive(Debug, Clone)]
pub struct DisplayInfo {
    pub id: u32,
    pub name: String,
    pub width: u32,
    pub height: u32,
}

/// A window that can be captured.
#[derive(Debug, Clone)]
pub struct WindowInfo {
    pub id: u32,
    pub owner: String,
    pub name: String,
    pub width: u32,
    pub height: u32,
}

/// The decimal digit `d` as a character.
pub open spec fn digit_char(d: int) -> char {
    if d == 0 {
        '0'
    } else if d == 1 {
        '1'
    } else if d == 2 {
        '2'
    } else if d == 3 {
        '3'
    } else if d == 4 {
        '4'
    } else if d == 5 {
        '5'
    } else if d == 6 {
        '6'
    } else if d == 7 {
        '7'
    } else if d == 8 {
        '8'
    } else {
        '9'
    }
}

/// Decimal notation of `n`, without leading zeros.
pub open spec fn decimal(n: nat) -> Seq<char>
    decreases n,
{
    if n < 10 {
        seq![digit_char(n as int)]
    } else {
        decimal(n / 10) + seq![digit_char((n % 10) as int)]
    }
}

fn digit_str(d: u64) -> (s: &'static str)
    requires
        d < 10,
    ensures
        s@ == seq![digit_char(d as int)],
{
    if d == 0 {
        proof {
            reveal_strlit("0");
        }
        "0"
    } else if d == 1 {
        proof {
            reveal_strlit("1");
        }
        "1"
    } else if d == 2 {
        proof {
            reveal_strlit("2");
        }
        "2"
    } else if d == 3 {
        proof {
            reveal_strlit("3");
        }
        "3"
    } else if d == 4 {
        proof {
            reveal_strlit("4");
        }
        "4"
    } else if d == 5 {
        proof {
            reveal_strlit("5");
        }
        "5"
    } else if d == 6 {
        proof {
            reveal_strlit("6");
        }
        "6"
    } else if d == 7 {
        proof {
            reveal_strlit("7");
        }
        "7"
    } else if d == 8 {
        proof {
            reveal_strlit("8");
        }
        "8"
    } else {
        proof {
            reveal_strlit("9");
        }
        "9"
    }
}

/// Writes `n` in decimal.
pub fn decimal_string(n: u64) -> (s: String)
    ensures
        s@ == decimal(n as nat),
    decreases n,
{
    if n < 10 {
        String::from_str(digit_str(n))
    } else {
        let mut s = decimal_string(n / 10);
        s.append(digit_str(n % 10));
        s
    }
}

/// Name of display `index` of the enumeration: "Main Display (WxH)" for the
/// first one, else "Display N (WxH)" with N its one-based position.
pub open spec fn display_label(index: int, w: u32, h: u32) -> Seq<char> {
    let size = "("@ + decimal(w as nat) + "x"@ + decimal(h as nat) + ")"@;
    if index == 0 {
        "Main Display "@ + size
    } else {
        "Display "@ + decimal((index + 1) as nat) + " "@ + size
    }
}

/// Describes display number `index` (zero-based) of the enumeration; the
/// first one is the main display.
pub fn describe_display(index: usize, id: u32, width: u32, height: u32) -> (d: DisplayInfo)
    requires
        index < u64::MAX,
    ensures
        d.id == id,
        d.width == width,
        d.height == height,
        d.name@ == display_label(index as int, width, height),
{
    let mut size = String::from_str("(");
    size.append(decimal_string(width as u64).as_str());
    size.append("x");
    size.append(decimal_string(height as u64).as_str());
    size.append(")");
    let name = if index == 0 {
        let mut n = String::from_str("Main Display ");
        n.append(size.as_str());
        n
    } else {
        let mut n = String::from_str("Display ");
        n.append(decimal_string(index as u64 + 1).as_str());
        n.append(" ");
        n.append(size.as_str());
        n
    };
    DisplayInfo { id, name, width, height }
}

/// What `str::to_lowercase` gives for a string.
pub uninterp spec fn lowercase_chars(s: Seq<char>) -> Seq<char>;

/// `str::to_lowercase`: the lowercase mapping of each character, as the
/// Unicode tables of the standard library define it. The contract only names
/// the result; it states nothing about individual characters.
#[verifier::external_body]
fn to_lowercase(s: &str) -> (r: String)
    ensures
        r@ == lowercase_chars(s@),
{
    s.to_lowercase()
}

/// `needle` occurs in `haystack` as a run of consecutive characters.
pub open spec fn contains_run(haystack: Seq<char>, needle: Seq<char>) -> bool {
    exists|i: int| 0 <= i <= haystack.len() - needle.len() && #[trigger] haystack.subrange(i, i + needle.len()) == needle
}

/// Whether `needle` occurs in `haystack` at character position `i`.
fn occurs_at(haystack: &str, needle: &str, i: usize) -> (b: bool)
    requires
        i + needle@.len() <= haystack@.len(),
    ensures
        b == (haystack@.subrange(i as int, i + needle@.len()) == needle@),
{
    let n: usize = needle.unicode_len();
    let h: usize = haystack.unicode_len();
    let mut j: usize = 0;
    while j < n
        invariant
            n == needle@.len(),
            h == haystack@.len(),
            i + n <= h,
            j <= n,
            forall|t: int| 0 <= t < j ==> haystack@[i + t] == needle@[t],
        decreases n - j,
    {
        if haystack.get_char(i + j) != needle.get_char(j) {
            assert(haystack@.subrange(i as int, i + n)[j as int] != needle@[j as int]);
            return false;
        }
        j = j + 1;
    }
    assert(haystack@.subrange(i as int, i + n) =~= needle@);
    true
}

/// Whether `needle` occurs in `haystack` as a run of consecutive characters
/// (an empty `needle` occurs in every string).
pub fn contains_text(haystack: &str, needle: &str) -> (b: bool)
    ensures
        b == contains_run(haystack@, needle@),
{
    let h: usize = haystack.unicode_len();
    let n: usize = needle.unicode_len();
    if n > h {
        return false;
    }
    let last: usize = h - n;
    let mut i: usize = 0;
    while i < last
        invariant
            h == haystack@.len(),
            n == needle@.len(),
            last == h - n,
            i <= last,
            forall|j: int| 0 <= j < i ==> #[trigger] haystack@.subrange(j, j + n) != needle@,
        decreases last - i,
    {
        if occurs_at(haystack, needle, i) {
            return true;
        }
        i = i + 1;
    }
    occurs_at(haystack, needle, last)
}

/// A window is worth listing: it has an owner, lies on the main application
/// layer, is on screen and is at least 100 x 100.
pub open spec fn spec_is_listable_window(owner: Seq<char>, layer: i32, on_screen: bool, width: u32, height: u32) -> bool {
    owner.len() > 0 && layer == 0 && on_screen && width >= 100 && height >= 100
}

/// Only windows on layer 0 exactly, on screen, with an owner and at least
/// 100 x 100 are listed; any other layer (negative ones included) is not.
pub proof fn lemma_listable_window_conditions(owner: Seq<char>, layer: i32, on_screen: bool, width: u32, height: u32)
    ensures
        layer != 0 ==> !spec_is_listable_window(owner, layer, on_screen, width, height),
        !on_screen ==> !spec_is_listable_window(owner, layer, on_screen, width, height),
        owner.len() == 0 ==> !spec_is_listable_window(owner, layer, on_screen, width, height),
        width < 100 || height < 100 ==> !spec_is_listable_window(owner, layer, on_screen, width, height),
        owner.len() > 0 && layer == 0 && on_screen && width >= 100 && height >= 100 ==> spec_is_listable_window(
            owner,
            layer,
            on_screen,
            width,
            height,
        ),
{
}

/// Decides whether a window is worth listing, see [`spec_is_listable_window`].
pub fn is_listable_window(owner: &str, layer: i32, on_screen: bool, width: u32, height: u32) -> (b: bool)
    ensures
        b == spec_is_listable_window(owner@, layer, on_screen, width, height),
        b <==> (owner@.len() > 0 && layer == 0 && on_screen && width >= 100 && height >= 100),
{
    !(owner.is_empty() || layer != 0 || !on_screen || width < 100 || height < 100)
}

/// Name of a window: its owner when it has no title, else "owner – title".
pub open spec fn window_label(owner: Seq<char>, title: Seq<char>) -> Seq<char> {
    if title.len() == 0 {
        owner
    } else {
        owner + " \u{2013} "@ + title
    }
}

/// Builds the name of a window, see [`window_label`].
pub fn window_name(owner: &str, title: &str) -> (name: String)
    ensures
        name@ == window_label(owner@, title@),
{
    if title.is_empty() {
        String::from_str(owner)
    } else {
        let mut n = String::from_str(owner);
        n.append(" \u{2013} ");
        n.append(title);
        n
    }
}

/// Describes a shareable window, given its owner's name in lowercase, or
/// drops it: windows that are not worth listing are dropped, and so are
/// untitled windows whose owner's lowercase name contains "powerpoint"
/// (background windows of the presentation app).
pub fn describe_window_with_lowercase_owner(
    id: u32,
    owner: String,
    owner_lowercase: &str,
    title: String,
    layer: i32,
    on_screen: bool,
    width: u32,
    height: u32,
) -> (w: Option<WindowInfo>)
    ensures
        w is Some <==> spec_is_listable_window(owner@, layer, on_screen, width, height) && !(title@.len() == 0
            && contains_run(owner_lowercase@, "powerpoint"@)),
        w is Some ==> owner@.len() > 0 && layer == 0 && on_screen && width >= 100 && height >= 100,
        owner@.len() > 0 && layer == 0 && on_screen && width >= 100 && height >= 100 && title@.len() > 0 ==> w is Some,
        w matches Some(info) ==> info.id == id && info.owner@ == owner@ && info.width == width && info.height
            == height && info.name@ == window_label(owner@, title@),
{
    if !is_listable_window(owner.as_str(), layer, on_screen, width, height) {
        return None;
    }
    if title.as_str().is_empty() && contains_text(owner_lowercase, "powerpoint") {
        return None;
    }
    let name = window_name(owner.as_str(), title.as_str());
    Some(WindowInfo { id, owner, name, width, height })
}

/// Describes a shareable window, or drops it, as
/// [`describe_window_with_lowercase_owner`] does with the owner's name
/// lowercased by `str::to_lowercase`.
pub fn describe_window(id: u32, owner: String, title: String, layer: i32, on_screen: bool, width: u32, height: u32) -> (w: Option<WindowInfo>)
    ensures
        w is Some <==> spec_is_listable_window(owner@, layer, on_screen, width, height) && !(title@.len() == 0
            && contains_run(lowercase_chars(owner@), "powerpoint"@)),
        w is Some ==> owner@.len() > 0 && layer == 0 && on_screen && width >= 100 && height >= 100,
        owner@.len() > 0 && layer == 0 && on_screen && width >= 100 && height >= 100 && title@.len() > 0 ==> w is Some,
        w matches Some(info) ==> info.id == id && info.owner@ == owner@ && info.width == width && info.height
            == height && info.name@ == window_label(owner@, title@),
{
    let lower = to_lowercase(owner.as_str());
    describe_window_with_lowercase_owner(id, owner, lower.as_str(), title, layer, on_screen, width, height)
}

} // verus!
