//! The grammar of user-supplied identifiers: canonical room identifiers
//! (`!local:server`), room aliases (`#local:server`) and user identifiers
//! (`@local:server`). A reference is well formed when it carries the right
//! sigil, a non-empty local part up to the first colon, and a non-empty
//! server name after it.

use vstd::prelude::*;

verus! {

/// Index of the first `:` in `s`, or `s.len()` when there is none.
pub open spec fn colon_pos(s: Seq<char>) -> int
    decreases s.len(),
{
    if s.len() == 0 {
        0
    } else if s[0] == ':' {
        0
    } else {
        1 + colon_pos(s.drop_first())
    }
}

pub proof fn lemma_colon_pos_bounds(s: Seq<char>)
    ensures
        0 <= colon_pos(s) <= s.len(),
        colon_pos(s) < s.len() ==> s[colon_pos(s)] == ':',
        forall|j: int| 0 <= j < colon_pos(s) ==> s[j] != ':',
    decreases s.len(),
{
    if s.len() == 0 {
    } else if s[0] == ':' {
    } else {
        lemma_colon_pos_bounds(s.drop_first());
        assert forall|j: int| 0 <= j < colon_pos(s) implies s[j] != ':' by {
            if j > 0 {
                assert(s.drop_first()[j - 1] == s[j]);
            }
        }
    }
}

/// `s` is `<sigil>local:server` with a non-empty local part (no colon in it)
/// and a non-empty server name after the first colon.
pub open spec fn well_formed_ref(s: Seq<char>, sigil: char) -> bool {
    let c = colon_pos(s.drop_first());
    &&& s.len() >= 1
    &&& s[0] == sigil
    &&& 1 <= c
    &&& c + 1 < s.drop_first().len()
}

/// A canonical room identifier: `!local:server`.
pub open spec fn valid_room_id(s: Seq<char>) -> bool {
    well_formed_ref(s, '!')
}

/// A room alias: `#local:server`.
pub open spec fn valid_alias(s: Seq<char>) -> bool {
    well_formed_ref(s, '#')
}

/// A user identifier: `@local:server`.
pub open spec fn valid_user_id(s: Seq<char>) -> bool {
    well_formed_ref(s, '@')
}

/// The server-name suffix of a reference: everything after the first colon
/// of the part that follows the sigil, empty when there is no colon there.
pub open spec fn server_part(s: Seq<char>) -> Seq<char>
    recommends
        s.len() >= 1,
{
    let body = s.drop_first();
    let c = colon_pos(body);
    if c < body.len() {
        body.subrange(c + 1, body.len() as int)
    } else {
        Seq::<char>::empty()
    }
}

/// A displayable room name: non-empty, at most 255 characters.
pub open spec fn valid_room_name(s: Seq<char>) -> bool {
    1 <= s.len() <= 255
}

/// Decides whether `s` is a valid room name.
pub fn is_valid_room_name(s: &str) -> (r: bool)
    ensures
        r == valid_room_name(s@),
{
    let l = s.unicode_len();
    1 <= l && l <= 255
}

/// A room version label: non-empty, at most 32 characters.
pub open spec fn valid_room_version(s: Seq<char>) -> bool {
    1 <= s.len() <= 32
}

/// Decides whether `s` is a valid room version label.
pub fn is_valid_room_version(s: &str) -> (r: bool)
    ensures
        r == valid_room_version(s@),
{
    let l = s.unicode_len();
    1 <= l && l <= 32
}

/// Finds the first colon of `s` starting at character index `from`,
/// returning `s@.len()` when there is none.
pub(crate) fn find_colon_from(s: &str, from: usize) -> (r: usize)
    requires
        from <= s@.len(),
        s@.len() <= usize::MAX,
    ensures
        from + colon_pos(s@.skip(from as int)) == r,
{
    let end: usize = s.unicode_len();
    let mut i: usize = from;
    while i < end
        invariant
            from <= i <= end,
            end == s@.len(),
            forall|j: int| from <= j < i ==> s@[j] != ':',
        decreases end - i,
    {
        if s.get_char(i) == ':' {
            proof {
                lemma_colon_first_at(s@.skip(from as int), (i - from) as int);
            }
            return i;
        }
        i = i + 1;
    }
    proof {
        lemma_colon_absent(s@.skip(from as int));
    }
    end
}

/// If position `k` of `s` holds the first colon, `colon_pos` finds it.
proof fn lemma_colon_first_at(s: Seq<char>, k: int)
    requires
        0 <= k < s.len(),
        s[k] == ':',
        forall|j: int| 0 <= j < k ==> s[j] != ':',
    ensures
        colon_pos(s) == k,
    decreases s.len(),
{
    if k > 0 {
        lemma_colon_first_at(s.drop_first(), k - 1);
    }
}

/// If `s` has no colon at all, `colon_pos` returns its length.
proof fn lemma_colon_absent(s: Seq<char>)
    requires
        forall|j: int| 0 <= j < s.len() ==> s[j] != ':',
    ensures
        colon_pos(s) == s.len(),
    decreases s.len(),
{
    if s.len() > 0 {
        lemma_colon_absent(s.drop_first());
    }
}

/// The server-name suffix of a reference: everything after the first colon
/// that follows the sigil, empty when there is no such colon.
pub fn server_suffix(s: &str) -> (r: String)
    requires
        s@.len() >= 1,
    ensures
        r@ == server_part(s@),
{
    let len = s.unicode_len();
    let c = find_colon_from(s, 1);
    proof {
        lemma_colon_pos_bounds(s@.drop_first());
        assert(s@.skip(1) =~= s@.drop_first());
    }
    if c >= len {
        proof {
            assert(server_part(s@) =~= Seq::<char>::empty());
        }
        String::new()
    } else {
        let sub = s.substring_char(c + 1, len);
        proof {
            assert(sub@ =~= server_part(s@));
        }
        String::from_str(sub)
    }
}

/// Decides whether `s` is a well-formed reference under the given sigil.
pub fn is_well_formed_ref(s: &str, sigil: char) -> (r: bool)
    ensures
        r == well_formed_ref(s@, sigil),
{
    let len: usize = s.unicode_len();
    if len == 0 {
        return false;
    }
    if s.get_char(0) != sigil {
        return false;
    }
    let c = find_colon_from(s, 1);
    proof {
        lemma_colon_pos_bounds(s@.drop_first());
        assert(s@.skip(1) =~= s@.drop_first());
    }
    1 < c && c < len - 1
}

} // verus!
