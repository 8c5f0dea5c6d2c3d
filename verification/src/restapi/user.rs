//! The cache of accounts by user id, layer-one address and layer-two public
//! key.

use vstd::hash_map::StringHashMap;
use vstd::prelude::*;
use vstd::string::*;

verus! {

/// An account as the database describes it.
#[derive(Debug)]
pub struct AccountDesc {
    pub id: i32,
    pub l1_address: String,
    pub l2_pubkey: String,
}

/// The decimal digit for a number below ten.
pub open spec fn digit(value: nat) -> char {
    if value == 0 {
        '0'
    } else if value == 1 {
        '1'
    } else if value == 2 {
        '2'
    } else if value == 3 {
        '3'
    } else if value == 4 {
        '4'
    } else if value == 5 {
        '5'
    } else if value == 6 {
        '6'
    } else if value == 7 {
        '7'
    } else if value == 8 {
        '8'
    } else {
        '9'
    }
}

/// The decimal digits of a natural number, most significant first.
pub open spec fn digits(value: nat) -> Seq<char>
    decreases value,
{
    if value < 10 {
        seq![digit(value)]
    } else {
        digits(value / 10).push(digit(value % 10))
    }
}

/// An integer written in decimal, with a minus sign where it is negative.
pub open spec fn decimal_text(value: int) -> Seq<char> {
    if value < 0 {
        seq!['-'] + digits((-value) as nat)
    } else {
        digits(value as nat)
    }
}

/// The cache key of the user id `value`.
pub open spec fn user_id_key(value: Seq<char>) -> Seq<char> {
    "id:"@ + value
}

/// The cache key of the layer-one address `value`.
pub open spec fn l1_address_key(value: Seq<char>) -> Seq<char> {
    "l1_addr:"@ + value
}

/// The cache key of the layer-two public key `value`.
pub open spec fn l2_pubkey_key(value: Seq<char>) -> Seq<char> {
    "l2_pubkey:"@ + value
}

/// The account that a cache holds for `user_id`, read first as a user id,
/// then as a layer-one address, then as a layer-two public key.
pub open spec fn cached(users: Map<Seq<char>, AccountDesc>, user_id: Seq<char>) -> Option<
    AccountDesc,
> {
    if users.contains_key(user_id_key(user_id)) {
        Some(users[user_id_key(user_id)])
    } else if users.contains_key(l1_address_key(user_id)) {
        Some(users[l1_address_key(user_id)])
    } else if users.contains_key(l2_pubkey_key(user_id)) {
        Some(users[l2_pubkey_key(user_id)])
    } else {
        None
    }
}

/// A cache after `user` was entered under its id, its layer-one address and
/// its layer-two public key.
pub open spec fn remembered(users: Map<Seq<char>, AccountDesc>, user: AccountDesc) -> Map<
    Seq<char>,
    AccountDesc,
> {
    users.insert(user_id_key(decimal_text(user.id as int)), user).insert(
        l1_address_key(user.l1_address@),
        user,
    ).insert(l2_pubkey_key(user.l2_pubkey@), user)
}

/// The cache key under which a user id stands.
pub fn format_user_id_key(val: &str) -> (key: String)
    ensures
        key@ == user_id_key(val@),
{
    String::from_str("id:").concat(val)
}

/// The cache key under which a layer-one address stands.
pub fn format_l1_address_key(val: &str) -> (key: String)
    ensures
        key@ == l1_address_key(val@),
{
    String::from_str("l1_addr:").concat(val)
}

/// The cache key under which a layer-two public key stands.
pub fn format_l2_pubkey_key(val: &str) -> (key: String)
    ensures
        key@ == l2_pubkey_key(val@),
{
    String::from_str("l2_pubkey:").concat(val)
}

fn digit_text(value: u32) -> (text: &'static str)
    requires
        value < 10,
    ensures
        text@ == seq![digit(value as nat)],
{
    proof {
        reveal_strlit("0");
        reveal_strlit("1");
        reveal_strlit("2");
        reveal_strlit("3");
        reveal_strlit("4");
        reveal_strlit("5");
        reveal_strlit("6");
        reveal_strlit("7");
        reveal_strlit("8");
        reveal_strlit("9");
    }
    let text = if value == 0 {
        "0"
    } else if value == 1 {
        "1"
    } else if value == 2 {
        "2"
    } else if value == 3 {
        "3"
    } else if value == 4 {
        "4"
    } else if value == 5 {
        "5"
    } else if value == 6 {
        "6"
    } else if value == 7 {
        "7"
    } else if value == 8 {
        "8"
    } else {
        "9"
    };
    assert(text@ =~= seq![digit(value as nat)]);
    text
}

fn append_digits(value: u32, text: &mut String)
    ensures
        final(text)@ == old(text)@ + digits(value as nat),
    decreases value,
{
    if value >= 10 {
        append_digits(value / 10, text);
    }
    text.append(digit_text(value % 10));
    proof {
        if value >= 10 {
            assert(final(text)@ =~= old(text)@ + digits(value as nat));
        }
    }
}

/// Writes an integer in decimal.
pub fn format_id(value: i32) -> (text: String)
    ensures
        text@ == decimal_text(value as int),
{
    if value < 0 {
        let magnitude: u32 = (-(value as i64)) as u32;
        let mut text = String::from_str("-");
        proof {
            reveal_strlit("-");
            assert("-"@ =~= seq!['-']);
        }
        append_digits(magnitude, &mut text);
        text
    } else {
        let mut text = String::new();
        append_digits(value as u32, &mut text);
        proof {
            assert(Seq::<char>::empty() + digits(value as nat) =~= digits(value as nat));
        }
        text
    }
}

/// The accounts that requests have already asked for.
pub struct UserCache {
    users: StringHashMap<AccountDesc>,
}

impl View for UserCache {
    type V = Map<Seq<char>, AccountDesc>;

    closed spec fn view(&self) -> Map<Seq<char>, AccountDesc> {
        self.users@
    }
}

fn copy_of(user: &AccountDesc) -> (copy: AccountDesc)
    ensures
        copy == *user,
{
    AccountDesc {
        id: user.id,
        l1_address: user.l1_address.clone(),
        l2_pubkey: user.l2_pubkey.clone(),
    }
}

impl UserCache {
    /// An empty cache.
    pub fn new() -> (cache: UserCache)
        ensures
            cache@ == Map::<Seq<char>, AccountDesc>::empty(),
    {
        UserCache { users: StringHashMap::new() }
    }

    /// Looks an account up by what a request gave: a user id, a layer-one
    /// address or a layer-two public key, tried in this order.
    pub fn find(&self, user_id: &str) -> (found: Option<&AccountDesc>)
        ensures
            match found {
                Some(user) => cached(self@, user_id@) == Some(*user),
                None => cached(self@, user_id@) is None,
            },
    {
        let by_id = format_user_id_key(user_id);
        match self.users.get(by_id.as_str()) {
            Some(user) => {
                return Some(user);
            },
            None => {},
        }
        let by_address = format_l1_address_key(user_id);
        match self.users.get(by_address.as_str()) {
            Some(user) => {
                return Some(user);
            },
            None => {},
        }
        let by_pubkey = format_l2_pubkey_key(user_id);
        self.users.get(by_pubkey.as_str())
    }

    /// Enters an account under its id, its layer-one address and its
    /// layer-two public key.
    pub fn remember(&mut self, user: &AccountDesc)
        ensures
            final(self)@ == remembered(old(self)@, *user),
    {
        let id_text = format_id(user.id);
        self.users.insert(format_user_id_key(id_text.as_str()), copy_of(user));
        self.users.insert(format_l1_address_key(user.l1_address.as_str()), copy_of(user));
        self.users.insert(format_l2_pubkey_key(user.l2_pubkey.as_str()), copy_of(user));
    }
}

} // verus!
