//! Device passwords held by the agent: a table from device code to password,
//! and the generation of fresh six-digit passwords.

use crate::text::{decimal, digit_char, push_decimal};
use rand::rngs::ThreadRng;
use rand::Rng;
use vstd::prelude::*;

verus! {

broadcast use vstd::string::group_string_axioms;

#[verifier::external_type_specification]
#[verifier::external_body]
pub struct ExThreadRng(ThreadRng);

/// Calls `rand::thread_rng`: a handle on this thread's generator. Nothing is
/// stated of it.
#[verifier::external_body]
fn thread_rng() -> (r: ThreadRng) {
    rand::thread_rng()
}

/// Calls `Rng::gen_range` on `0..bound`. The range is not empty, which is
/// the documented condition for not panicking, and the value drawn lies in
/// it; which value comes is chance.
#[verifier::external_body]
fn random_below(rng: &mut ThreadRng, bound: u32) -> (n: u32)
    requires
        bound > 0,
    ensures
        n < bound,
{
    rng.gen_range(0..bound)
}

/// Number of digits in a generated password.
pub const PASSWORD_DIGITS: usize = 6;

/// Whether `s` is made of `PASSWORD_DIGITS` decimal digits.
pub open spec fn is_password(s: Seq<char>) -> bool {
    &&& s.len() == PASSWORD_DIGITS
    &&& forall|i: int| 0 <= i < s.len() ==> '0' <= #[trigger] s[i] <= '9'
}

/// Whether `entries` lists each device of `table` once, with its password.
spec fn table_of(entries: Seq<(String, String)>, table: Map<Seq<char>, Seq<char>>) -> bool {
    &&& forall|i: int, j: int| 0 <= i < j < entries.len() ==> #[trigger] entries[i].0@ != #[trigger] entries[j].0@
    &&& forall|i: int|
        0 <= i < entries.len() ==> table.contains_key(#[trigger] entries[i].0@) && table[entries[i].0@]
            == entries[i].1@
    &&& forall|k: Seq<char>|
        #[trigger] table.contains_key(k) ==> exists|i: int| 0 <= i < entries.len() && #[trigger] entries[i].0@ == k
}

/// The characters of a password drawn as `draws`: one decimal digit per
/// draw, in order.
pub open spec fn password_of(draws: Seq<u32>) -> Seq<char> {
    Seq::new(draws.len(), |i: int| digit_char(draws[i] as int))
}

/// The passwords of the devices known to the agent.
pub struct DeviceAuthManager {
    entries: Vec<(String, String)>,
    table: Ghost<Map<Seq<char>, Seq<char>>>,
}

impl DeviceAuthManager {
    #[verifier::type_invariant]
    spec fn entries_match_table(self) -> bool {
        table_of(self.entries@, self.table@)
    }

    /// The password of each known device, by device code.
    pub closed spec fn passwords(&self) -> Map<Seq<char>, Seq<char>> {
        self.table@
    }

    /// A manager that knows no device.
    pub fn new() -> (m: Self)
        ensures
            m.passwords() == Map::<Seq<char>, Seq<char>>::empty(),
    {
        DeviceAuthManager { entries: Vec::new(), table: Ghost(Map::empty()) }
    }

    /// The position of `device_id` among the entries, if it is known.
    fn position(&self, device_id: &str) -> (p: Option<usize>)
        ensures
            match p {
                Some(i) => i < self.entries@.len() && self.entries@[i as int].0@ == device_id@,
                None => !self.passwords().contains_key(device_id@),
            },
    {
        proof {
            use_type_invariant(self);
        }
        let key = device_id.to_string();
        let mut i: usize = 0;
        while i < self.entries.len()
            invariant
                i <= self.entries@.len(),
                key@ == device_id@,
                forall|j: int| 0 <= j < i ==> #[trigger] self.entries@[j].0@ != device_id@,
            decreases self.entries@.len() - i,
        {
            if self.entries[i].0 == key {
                return Some(i);
            }
            i = i + 1;
        }
        None
    }

    /// Records `password` for `device_id`, replacing any earlier one.
    pub fn register_device(&mut self, device_id: String, password: String)
        ensures
            final(self).passwords() == old(self).passwords().insert(device_id@, password@),
    {
        proof {
            use_type_invariant(&*self);
        }
        let ghost key = device_id@;
        let ghost new_table = self.table@.insert(key, password@);
        let found = self.position(device_id.as_str());
        let mut taken = DeviceAuthManager::new();
        std::mem::swap(&mut taken, self);
        proof {
            use_type_invariant(&taken);
        }
        let DeviceAuthManager { mut entries, table } = taken;
        let ghost before = entries@;
        match found {
            Some(i) => {
                entries.set(i, (device_id, password));
                proof {
                    assert forall|j: int| 0 <= j < entries@.len() && j != i implies #[trigger] entries@[j].0@ != key by {
                        assert(before[j].0@ != before[i as int].0@);
                    }
                    assert forall|j: int| 0 <= j < entries@.len() implies new_table.contains_key(#[trigger] entries@[j].0@)
                        && new_table[entries@[j].0@] == entries@[j].1@ by {
                        if j != i {
                            assert(entries@[j] == before[j]);
                        }
                    }
                    assert forall|k: Seq<char>| #[trigger] new_table.contains_key(k) implies exists|j: int|
                        0 <= j < entries@.len() && #[trigger] entries@[j].0@ == k by {
                        if k == key {
                            assert(entries@[i as int].0@ == k);
                        } else {
                            let j = choose|j: int| 0 <= j < before.len() && #[trigger] before[j].0@ == k;
                            assert(entries@[j].0@ == k);
                        }
                    }
                }
            },
            None => {
                entries.push((device_id, password));
                proof {
                    assert forall|j: int| 0 <= j < before.len() implies #[trigger] entries@[j].0@ != key by {
                        assert(table@.contains_key(before[j].0@));
                    }
                    assert forall|j: int| 0 <= j < entries@.len() implies new_table.contains_key(#[trigger] entries@[j].0@)
                        && new_table[entries@[j].0@] == entries@[j].1@ by {
                        if j < before.len() {
                            assert(entries@[j] == before[j]);
                        }
                    }
                    assert forall|k: Seq<char>| #[trigger] new_table.contains_key(k) implies exists|j: int|
                        0 <= j < entries@.len() && #[trigger] entries@[j].0@ == k by {
                        if k == key {
                            assert(entries@[before.len() as int].0@ == k);
                        } else {
                            let j = choose|j: int| 0 <= j < before.len() && #[trigger] before[j].0@ == k;
                            assert(entries@[j].0@ == k);
                        }
                    }
                }
            },
        }
        proof {
            assert forall|a: int, b: int| 0 <= a < b < entries@.len() implies #[trigger] entries@[a].0@
                != #[trigger] entries@[b].0@ by {
                if a < before.len() && b < before.len() && (found is None || (a != found->0 && b != found->0)) {
                    assert(entries@[a] == before[a]);
                    assert(entries@[b] == before[b]);
                }
            }
        }
        assert(table_of(entries@, new_table));
        *self = DeviceAuthManager { entries, table: Ghost(new_table) };
    }

    /// Whether `password` is the one recorded for `device_id`; `false` for
    /// an unknown device.
    pub fn verify_password(&self, device_id: &str, password: &str) -> (ok: bool)
        ensures
            ok == (self.passwords().contains_key(device_id@) && self.passwords()[device_id@] == password@),
    {
        proof {
            use_type_invariant(self);
        }
        match self.position(device_id) {
            Some(i) => {
                let given = password.to_string();
                self.entries[i].1 == given
            },
            None => false,
        }
    }

    /// The password spelled by `draws`: the decimal digit of each draw, in
    /// order.
    pub fn password_from_draws(draws: &Vec<u32>) -> (p: String)
        requires
            draws@.len() == PASSWORD_DIGITS,
            forall|i: int| 0 <= i < draws@.len() ==> #[trigger] draws@[i] < 10,
        ensures
            p@ == password_of(draws@),
            is_password(p@),
    {
        let mut password = String::new();
        let mut n: usize = 0;
        while n < draws.len()
            invariant
                n <= draws@.len(),
                draws@.len() == PASSWORD_DIGITS,
                forall|i: int| 0 <= i < draws@.len() ==> #[trigger] draws@[i] < 10,
                password@ == password_of(draws@.take(n as int)),
            decreases draws@.len() - n,
        {
            let digit = draws[n];
            let ghost before = password@;
            push_decimal(&mut password, digit as u64);
            proof {
                reveal_with_fuel(decimal, 2);
                assert(draws@.take(n + 1) =~= draws@.take(n as int).push(digit));
                assert(password_of(draws@.take(n as int).push(digit)) =~= password_of(draws@.take(n as int))
                    + seq![digit_char(digit as int)]);
            }
            n = n + 1;
        }
        proof {
            assert(draws@.take(draws@.len() as int) =~= draws@);
        }
        password
    }

    /// A fresh password of six random decimal digits: six draws below 10,
    /// spelled out in order.
    pub fn generate_password() -> (p: String)
        ensures
            is_password(p@),
            exists|draws: Seq<u32>|
                draws.len() == PASSWORD_DIGITS && (forall|i: int| 0 <= i < draws.len() ==> #[trigger] draws[i]
                    < 10) && p@ == #[trigger] password_of(draws),
    {
        let mut rng = thread_rng();
        let mut draws: Vec<u32> = Vec::new();
        while draws.len() < PASSWORD_DIGITS
            invariant
                draws@.len() <= PASSWORD_DIGITS,
                forall|i: int| 0 <= i < draws@.len() ==> #[trigger] draws@[i] < 10,
            decreases PASSWORD_DIGITS - draws@.len(),
        {
            let digit = random_below(&mut rng, 10);
            draws.push(digit);
        }
        Self::password_from_draws(&draws)
    }
}

/// Law: a registered password verifies, and only it. After `password` is
/// registered for `device_id`, verifying `device_id` with `attempt`
/// succeeds exactly when `attempt` is that password, while every other
/// device verifies as it did before.
pub proof fn law_registered_password_verifies(
    passwords: Map<Seq<char>, Seq<char>>,
    device_id: Seq<char>,
    password: Seq<char>,
    attempt: Seq<char>,
    other: Seq<char>,
)
    requires
        other != device_id,
    ensures
        ({
            let after = passwords.insert(device_id, password);
            &&& (after.contains_key(device_id) && after[device_id] == attempt) <==> attempt == password
            &&& (after.contains_key(other) && after[other] == attempt) <==> (passwords.contains_key(other)
                && passwords[other] == attempt)
        }),
{
}

} // verus!
