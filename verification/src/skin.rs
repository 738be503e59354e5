//! Player skin bookkeeping: which skin property a player entry keeps, the
//! texture keys skins and skulls are cached under, and the local skin's
//! cache paths.
use vstd::prelude::*;
use crate::text::string_push;

verus! {

/// The skin property a player entry takes: the one listed in the tab list
/// when it lists one, else the one the entity carries.
pub open spec fn pick_property(listed: Option<Option<Seq<char>>>, entity: Option<Seq<char>>) -> Option<Seq<char>> {
    match listed {
        Some(Some(p)) => Some(p),
        _ => entity,
    }
}

/// An optional string as characters.
pub open spec fn opt_str_view(s: Option<&str>) -> Option<Seq<char>> {
    match s {
        Some(t) => Some(t@),
        None => None,
    }
}

/// An optional optional string as characters.
pub open spec fn opt_opt_str_view(s: Option<Option<&str>>) -> Option<Option<Seq<char>>> {
    match s {
        Some(inner) => Some(opt_str_view(inner)),
        None => None,
    }
}

/// An optional owned string as characters.
pub open spec fn opt_string_view(s: Option<String>) -> Option<Seq<char>> {
    match s {
        Some(t) => Some(t@),
        None => None,
    }
}

fn owned(s: Option<&str>) -> (r: Option<String>)
    ensures
        opt_string_view(r) == opt_str_view(s),
{
    match s {
        Some(t) => Some(t.to_owned()),
        None => None,
    }
}

/// The skin property remembered for one player.
pub struct PlayerSkinProfileCache {
    /// Who the property belongs to (a UUID or a name).
    pub identity: String,
    pub skin_property: Option<String>,
}

/// The state after an update: a new identity takes the property anew;
/// for the same identity a tab-list entry (with or without a property)
/// decides, and without one the entity's property only fills an empty
/// slot.
pub open spec fn spec_profile_update(
    identity: Seq<char>,
    property: Option<Seq<char>>,
    new_identity: Seq<char>,
    listed: Option<Option<Seq<char>>>,
    entity: Option<Seq<char>>,
) -> (Seq<char>, Option<Seq<char>>) {
    if identity != new_identity {
        (new_identity, pick_property(listed, entity))
    } else {
        match listed {
            Some(p) => (identity, match p {
                Some(q) => Some(q),
                None => entity,
            }),
            None => (identity, if property is None {
                entity
            } else {
                property
            }),
        }
    }
}

impl PlayerSkinProfileCache {
    /// A profile for `identity` with the listed property, or else the
    /// entity's.
    pub fn new(identity: String, listed_property: Option<Option<&str>>, entity_property: Option<&str>) -> (r: PlayerSkinProfileCache)
        ensures
            r.identity@ == identity@,
            opt_string_view(r.skin_property) == pick_property(opt_opt_str_view(listed_property), opt_str_view(entity_property)),
    {
        let picked = match listed_property {
            Some(Some(p)) => Some(p),
            _ => entity_property,
        };
        PlayerSkinProfileCache { identity, skin_property: owned(picked) }
    }

    /// Updates the profile from a new sighting of the player.
    pub fn update(&mut self, identity: String, listed_property: Option<Option<&str>>, entity_property: Option<&str>)
        ensures
            ({
                let r = spec_profile_update(
                    old(self).identity@,
                    opt_string_view(old(self).skin_property),
                    identity@,
                    opt_opt_str_view(listed_property),
                    opt_str_view(entity_property),
                );
                final(self).identity@ == r.0 && opt_string_view(final(self).skin_property) == r.1
            }),
    {
        if self.identity != identity {
            self.identity = identity;
            let picked = match listed_property {
                Some(Some(p)) => Some(p),
                _ => entity_property,
            };
            self.skin_property = owned(picked);
        } else if let Some(property) = listed_property {
            let picked = match property {
                Some(q) => Some(q),
                None => entity_property,
            };
            self.skin_property = owned(picked);
        } else if self.skin_property.is_none() {
            self.skin_property = owned(entity_property);
        }
    }
}

/// A player keeps its skin property while the tab list says nothing about
/// it and its identity stays; a tab-list entry without a property drops it;
/// a new identity never keeps the old property.
pub proof fn lemma_profile_follows_identity(
    identity: Seq<char>,
    property: Seq<char>,
    other: Seq<char>,
    entity: Option<Seq<char>>,
)
    requires
        identity != other,
    ensures
        spec_profile_update(identity, Some(property), identity, None, entity) == (identity, Some(property)),
        spec_profile_update(identity, Some(property), identity, Some(None), None) == (identity, None::<Seq<char>>),
        spec_profile_update(identity, Some(property), other, None, None) == (other, None::<Seq<char>>),
{
}

/// Appends the characters of `t` to `s`.
fn push_str(s: &mut String, t: &str)
    ensures
        final(s)@ == old(s)@ + t@,
{
    let n = t.unicode_len();
    let mut i: usize = 0;
    while i < n
        invariant
            n == t@.len(),
            i <= n,
            s@ == old(s)@ + t@.take(i as int),
        decreases n - i,
    {
        string_push(s, t.get_char(i));
        i = i + 1;
        assert(s@ =~= old(s)@ + t@.take(i as int));
    }
    assert(t@.take(n as int) =~= t@);
}

/// The first of `a` and `b` that is present, else "default".
pub open spec fn first_or_default(a: Option<Seq<char>>, b: Option<Seq<char>>) -> Seq<char> {
    match a {
        Some(x) => x,
        None => match b {
            Some(y) => y,
            None => seq!['d', 'e', 'f', 'a', 'u', 'l', 't'],
        },
    }
}

fn first_or_default_exec<'a>(a: Option<&'a str>, b: Option<&'a str>) -> (r: &'a str)
    ensures
        r@ == first_or_default(opt_str_view(a), opt_str_view(b)),
{
    match a {
        Some(x) => x,
        None => match b {
            Some(y) => y,
            None => {
                proof {
                    reveal_strlit("default");
                }
                "default"
            },
        },
    }
}

/// "player/" and the player's UUID, else its name, else "default".
pub open spec fn spec_player_skin_key(uuid: Option<Seq<char>>, name: Option<Seq<char>>) -> Seq<char> {
    seq!['p', 'l', 'a', 'y', 'e', 'r', '/'] + first_or_default(uuid, name)
}

/// The texture key a player entity's skin is cached under.
pub fn player_skin_key(uuid: Option<&str>, player_name: Option<&str>) -> (r: String)
    ensures
        r@ == spec_player_skin_key(opt_str_view(uuid), opt_str_view(player_name)),
{
    let mut s = String::new();
    proof {
        reveal_strlit("player/");
    }
    push_str(&mut s, "player/");
    push_str(&mut s, first_or_default_exec(uuid, player_name));
    s
}

/// The decimal digit `d` as a character.
pub open spec fn digit_char(d: nat) -> char {
    ((48 + d) as u8) as char
}

/// The decimal form of `n`, without leading zeros.
pub open spec fn decimal(n: nat) -> Seq<char>
    decreases n,
{
    if n < 10 {
        seq![digit_char(n)]
    } else {
        decimal(n / 10).push(digit_char(n % 10))
    }
}

/// Appends the decimal form of `n` to `s`.
pub fn push_decimal(s: &mut String, n: u64)
    ensures
        final(s)@ == old(s)@ + decimal(n as nat),
    decreases n,
{
    if n >= 10 {
        push_decimal(s, n / 10);
    }
    let d: u8 = (n % 10) as u8;
    string_push(s, (48u8 + d) as char);
    assert(s@ =~= old(s)@ + decimal(n as nat));
}

/// What `DefaultHasher` (as `DefaultHasher::new` builds it) gives for a
/// string.
pub uninterp spec fn default_str_hash(s: Seq<char>) -> u64;

/// Hashes a string with std's `DefaultHasher` through
/// `BuildHasher::hash_one`.  `DefaultHasher::new` takes no random seed,
/// so the result depends on the string alone; which hash function std
/// uses is left unsaid.
#[verifier::external_body]
fn stable_short_hash(value: &str) -> (r: u64)
    ensures
        r == default_str_hash(value@),
{
    std::hash::BuildHasher::hash_one(
        &std::hash::BuildHasherDefault::<std::collections::hash_map::DefaultHasher>::default(),
        value,
    )
}

/// The texture key of a skull: player skulls (type 3) are keyed by owner
/// UUID, else owner name, else "default", and the hash of their skin
/// property (0 without one); other skulls by their mob.
pub open spec fn spec_skull_key(skull_type: u8, owner_uuid: Option<Seq<char>>, owner_name: Option<Seq<char>>, skin_hash: u64) -> Seq<char> {
    if skull_type == 3 {
        seq!['p', 'l', 'a', 'y', 'e', 'r', '/', 's', 'k', 'u', 'l', 'l', '/'] + first_or_default(owner_uuid, owner_name)
            + seq!['/'] + decimal(skin_hash as nat)
    } else if skull_type == 1 {
        seq!['w', 'i', 't', 'h', 'e', 'r', '_', 's', 'k', 'e', 'l', 'e', 't', 'o', 'n']
    } else if skull_type == 2 {
        seq!['z', 'o', 'm', 'b', 'i', 'e']
    } else if skull_type == 4 {
        seq!['c', 'r', 'e', 'e', 'p', 'e', 'r']
    } else {
        seq!['s', 'k', 'e', 'l', 'e', 't', 'o', 'n']
    }
}

/// The texture key of a skull, given the hash of its skin property.
pub fn skull_key_with_hash(skull_type: u8, owner_uuid: Option<&str>, owner_name: Option<&str>, skin_hash: u64) -> (r: String)
    ensures
        r@ == spec_skull_key(skull_type, opt_str_view(owner_uuid), opt_str_view(owner_name), skin_hash),
{
    let mut s = String::new();
    if skull_type == 3 {
        proof {
            reveal_strlit("player/skull/");
            reveal_strlit("/");
        }
        push_str(&mut s, "player/skull/");
        push_str(&mut s, first_or_default_exec(owner_uuid, owner_name));
        push_str(&mut s, "/");
        push_decimal(&mut s, skin_hash);
        assert(s@ =~= spec_skull_key(skull_type, opt_str_view(owner_uuid), opt_str_view(owner_name), skin_hash));
    } else {
        let name = match skull_type {
            1 => {
                proof {
                    reveal_strlit("wither_skeleton");
                }
                "wither_skeleton"
            },
            2 => {
                proof {
                    reveal_strlit("zombie");
                }
                "zombie"
            },
            4 => {
                proof {
                    reveal_strlit("creeper");
                }
                "creeper"
            },
            _ => {
                proof {
                    reveal_strlit("skeleton");
                }
                "skeleton"
            },
        };
        push_str(&mut s, name);
        assert(s@ =~= spec_skull_key(skull_type, opt_str_view(owner_uuid), opt_str_view(owner_name), skin_hash));
    }
    s
}

/// The hash a skull's skin property is keyed by: its `DefaultHasher` hash,
/// or 0 without a property.
pub open spec fn skin_property_hash(skin_property: Option<Seq<char>>) -> u64 {
    match skin_property {
        Some(p) => default_str_hash(p),
        None => 0,
    }
}

/// The texture key a skull's skin is cached under.
pub fn skull_skin_key(skull_type: u8, owner_uuid: Option<&str>, owner_name: Option<&str>, skin_property: Option<&str>) -> (r: String)
    ensures
        r@ == spec_skull_key(
            skull_type,
            opt_str_view(owner_uuid),
            opt_str_view(owner_name),
            skin_property_hash(opt_str_view(skin_property)),
        ),
{
    let hash = match skin_property {
        Some(p) => stable_short_hash(p),
        None => 0,
    };
    skull_key_with_hash(skull_type, owner_uuid, owner_name, hash)
}


/// `s` without its '-' characters (a UUID as a plain hex key).
pub open spec fn without_dashes(s: Seq<char>) -> Seq<char>
    decreases s.len(),
{
    if s.len() == 0 {
        Seq::empty()
    } else {
        without_dashes(s.drop_last()) + if s.last() != '-' {
            seq![s.last()]
        } else {
            Seq::empty()
        }
    }
}

/// The part of `s` after its last '/' (all of `s` without one).
pub open spec fn after_last_slash(s: Seq<char>) -> Seq<char>
    decreases s.len(),
{
    if s.len() == 0 {
        Seq::empty()
    } else if s.last() == '/' {
        Seq::empty()
    } else {
        after_last_slash(s.drop_last()).push(s.last())
    }
}

/// `s` with its '-' characters removed.
pub fn remove_dashes(s: &str) -> (r: String)
    ensures
        r@ == without_dashes(s@),
{
    let n = s.unicode_len();
    let mut out = String::new();
    let mut i: usize = 0;
    while i < n
        invariant
            n == s@.len(),
            i <= n,
            out@ == without_dashes(s@.take(i as int)),
        decreases n - i,
    {
        let c = s.get_char(i);
        assert(s@.take(i + 1).drop_last() =~= s@.take(i as int));
        if c != '-' {
            string_push(&mut out, c);
        }
        i = i + 1;
        assert(out@ =~= without_dashes(s@.take(i as int)));
    }
    assert(s@.take(n as int) =~= s@);
    out
}

proof fn lemma_after_last_slash(s: Seq<char>, k: int)
    requires
        0 <= k <= s.len(),
        forall|j: int| k <= j < s.len() ==> s[j] != '/',
        k == 0 || s[k - 1] == '/',
    ensures
        after_last_slash(s) == s.skip(k),
    decreases s.len(),
{
    if s.len() == 0 {
        assert(s.skip(k) =~= Seq::<char>::empty());
    } else if k == s.len() {
        assert(s.skip(k) =~= Seq::<char>::empty());
    } else {
        lemma_after_last_slash(s.drop_last(), k);
        assert(s.skip(k) =~= s.drop_last().skip(k).push(s.last()));
    }
}

/// The last path segment of a URL: what follows its last '/'.
pub fn url_texture_key(url: &str) -> (r: &str)
    ensures
        r@ == after_last_slash(url@),
{
    let n = url.unicode_len();
    let mut k: usize = n;
    while k > 0 && url.get_char(k - 1) != '/'
        invariant
            n == url@.len(),
            k <= n,
            forall|j: int| k <= j < n ==> url@[j] != '/',
        decreases k,
    {
        k = k - 1;
    }
    proof {
        lemma_after_last_slash(url@, k as int);
    }
    url.substring_char(k, n)
}

/// Where the local skin is looked for first, then where older versions
/// kept it, and whether the model has slim arms.
pub struct LocalSkinPlan {
    /// The account UUID without dashes, or "default".
    pub uuid_key: String,
    /// The skin's texture key, the last segment of its URL.
    pub texture_key: Option<String>,
    pub slim_arms: bool,
}

/// "assets/skins/<uuid_key>/<texture_key>.png".
pub open spec fn spec_skin_cache_path(uuid_key: Seq<char>, texture_key: Seq<char>) -> Seq<char> {
    seq!['a', 's', 's', 'e', 't', 's', '/', 's', 'k', 'i', 'n', 's', '/'] + uuid_key + seq!['/'] + texture_key
        + seq!['.', 'p', 'n', 'g']
}

/// "assets/skins/<texture_key>.png", where older versions cached skins.
pub open spec fn spec_legacy_skin_cache_path(texture_key: Seq<char>) -> Seq<char> {
    seq!['a', 's', 's', 'e', 't', 's', '/', 's', 'k', 'i', 'n', 's', '/'] + texture_key + seq!['.', 'p', 'n', 'g']
}

/// "assets/capes/<texture_key>.png".
pub open spec fn spec_cape_cache_path(texture_key: Seq<char>) -> Seq<char> {
    seq!['a', 's', 's', 'e', 't', 's', '/', 'c', 'a', 'p', 'e', 's', '/'] + texture_key + seq!['.', 'p', 'n', 'g']
}

/// The file a downloaded skin is cached in.
pub fn skin_cache_path(uuid_key: &str, texture_key: &str) -> (r: String)
    ensures
        r@ == spec_skin_cache_path(uuid_key@, texture_key@),
{
    proof {
        reveal_strlit("assets/skins/");
        reveal_strlit("/");
        reveal_strlit(".png");
    }
    let mut s = String::new();
    push_str(&mut s, "assets/skins/");
    push_str(&mut s, uuid_key);
    push_str(&mut s, "/");
    push_str(&mut s, texture_key);
    push_str(&mut s, ".png");
    assert(s@ =~= spec_skin_cache_path(uuid_key@, texture_key@));
    s
}

/// The file older versions cached a skin in.
pub fn legacy_skin_cache_path(texture_key: &str) -> (r: String)
    ensures
        r@ == spec_legacy_skin_cache_path(texture_key@),
{
    proof {
        reveal_strlit("assets/skins/");
        reveal_strlit(".png");
    }
    let mut s = String::new();
    push_str(&mut s, "assets/skins/");
    push_str(&mut s, texture_key);
    push_str(&mut s, ".png");
    assert(s@ =~= spec_legacy_skin_cache_path(texture_key@));
    s
}

/// The file a cape is cached in.
pub fn cape_cache_path(texture_key: &str) -> (r: String)
    ensures
        r@ == spec_cape_cache_path(texture_key@),
{
    proof {
        reveal_strlit("assets/capes/");
        reveal_strlit(".png");
    }
    let mut s = String::new();
    push_str(&mut s, "assets/capes/");
    push_str(&mut s, texture_key);
    push_str(&mut s, ".png");
    assert(s@ =~= spec_cape_cache_path(texture_key@));
    s
}

/// The cache keys of the local skin: the account UUID without dashes (or
/// "default"), the last URL segment of its first skin, and slim arms when
/// that skin's variant is "SLIM".
pub fn local_skin_plan(uuid: Option<&str>, skin_url: Option<&str>, skin_variant: Option<&str>) -> (r: LocalSkinPlan)
    ensures
        r.uuid_key@ == without_dashes(first_or_default(opt_str_view(uuid), None)),
        opt_string_view(r.texture_key) == match skin_url {
            Some(u) => Some(after_last_slash(u@)),
            None => None,
        },
        r.slim_arms == (opt_str_view(skin_variant) == Some(seq!['S', 'L', 'I', 'M'])),
{
    let uuid_key = remove_dashes(first_or_default_exec(uuid, None));
    let texture_key = match skin_url {
        Some(u) => Some(url_texture_key(u).to_owned()),
        None => None,
    };
    proof {
        reveal_strlit("SLIM");
        assert("SLIM"@ =~= seq!['S', 'L', 'I', 'M']);
    }
    let slim_arms = match skin_variant {
        Some(v) => crate::text::str_eq(v, "SLIM"),
        None => false,
    };
    LocalSkinPlan { uuid_key, texture_key, slim_arms }
}

} // verus!
