//! What the pet owns, and how the save holds it.
//!
//! A balance is the sum of the entries of its ledger. A save that holds a balance but
//! no ledger gets a first entry over the whole balance, so that this stays true.

use crate::text;
use vstd::prelude::*;

verus! {

/// What the first entry refers to.
pub const SEED_REF: &'static str = "restore:seed";

/// A JSON value.
#[verifier::external_type_specification]
#[verifier::external_body]
pub struct ExternalJson(serde_json::Value);

/// The members of a JSON object, by name; empty for any other value.
pub uninterp spec fn members(object: serde_json::Value) -> Map<Seq<char>, serde_json::Value>;

/// A JSON value as a whole number of 64 bits with a sign; none where it is no such number.
pub uninterp spec fn whole(value: serde_json::Value) -> Option<i64>;

/// A JSON value as a text; none where it is no string.
pub uninterp spec fn words(value: serde_json::Value) -> Option<Seq<char>>;

/// The named member, by `serde_json::Value::get`: there is one exactly where the value is an
/// object with a member of this name.
#[verifier::external_body]
fn member<'a>(object: &'a serde_json::Value, name: &str) -> (r: Option<&'a serde_json::Value>)
    ensures
        r == (if members(*object).dom().contains(name@) {
            Some(&members(*object)[name@])
        } else {
            None
        }),
{
    object.get(name)
}

/// The value as a whole number, by `serde_json::Value::as_i64`.
#[verifier::external_body]
fn whole_of(value: &serde_json::Value) -> (r: Option<i64>)
    ensures
        r == whole(*value),
{
    value.as_i64()
}

/// The value as a text, by `serde_json::Value::as_str`.
#[verifier::external_body]
fn words_of(value: &serde_json::Value) -> (r: Option<String>)
    ensures
        r is Some <==> words(*value) is Some,
        r matches Some(text) ==> Some(text@) == words(*value),
{
    value.as_str().map(|text| text.to_string())
}

/// A whole number as a JSON value, by `serde_json::Value::from`: it is read back as that
/// number, and is no text.
#[verifier::external_body]
fn whole_value(number: i64) -> (r: serde_json::Value)
    ensures
        whole(r) == Some(number),
        words(r) is None,
{
    serde_json::Value::from(number)
}

/// A text as a JSON value, by `serde_json::Value::from`: it is read back as that text, and
/// is no number.
#[verifier::external_body]
fn text_value(text: &str) -> (r: serde_json::Value)
    ensures
        words(r) == Some(text@),
        whole(r) is None,
{
    serde_json::Value::from(text)
}

/// A JSON object, by `serde_json::Value::from_iter` over pairs of name and value: it has the
/// listed members, each with its value, and no others. Names are listed once each.
#[verifier::external_body]
fn object_of(listed: Vec<(String, serde_json::Value)>) -> (r: serde_json::Value)
    requires
        forall|i: int, j: int|
            0 <= i < j < listed.len() ==> (#[trigger] listed@[i]).0@ != (#[trigger] listed@[j]).0@,
    ensures
        forall|i: int|
            0 <= i < listed.len() ==> {
                &&& members(r).dom().contains((#[trigger] listed@[i]).0@)
                &&& members(r)[listed@[i].0@] == listed@[i].1
            },
        forall|name: Seq<char>| #[trigger]
            members(r).dom().contains(name) ==> exists|i: int|
                0 <= i < listed.len() && (#[trigger] listed@[i]).0@ == name,
{
    serde_json::Value::from_iter(listed)
}

/// The named member of a section of the save as a whole number; zero without one.
pub open spec fn saved_whole(section: serde_json::Value, name: Seq<char>) -> i64 {
    if members(section).dom().contains(name) && whole(members(section)[name]) is Some {
        whole(members(section)[name])->0
    } else {
        0
    }
}

/// The named member of a section of the save as a text; empty without one.
pub open spec fn saved_text(section: serde_json::Value, name: Seq<char>) -> Seq<char> {
    if members(section).dom().contains(name) && words(members(section)[name]) is Some {
        words(members(section)[name])->0
    } else {
        Seq::empty()
    }
}

/// How many entries of the ledger can be read.
pub open spec fn readable(entries: Option<usize>) -> nat {
    match entries {
        Some(n) => n as nat,
        None => 0,
    }
}

/// An entry over a balance that came without a ledger.
#[derive(Clone, Debug, PartialEq, Eq)]
pub struct SeedRecord {
    pub seq: u64,
    pub at_ms: i64,
    pub ref_id: String,
    pub amount: i64,
    pub balance_after: i64,
    pub day_bucket: String,
}

/// Where the ledger starts.
#[derive(Clone, Debug, PartialEq, Eq)]
pub enum LedgerStart {
    /// With the entries that the save holds.
    Kept,
    /// Without an entry.
    Empty,
    /// With one entry over the whole balance.
    Seeded { record: SeedRecord },
}

/// The account as the save holds it.
#[derive(Clone, Debug, PartialEq, Eq)]
pub struct Account {
    pub start: LedgerStart,
    /// What was earned on that day.
    pub earned_today: i64,
    /// The day that the account was last used on.
    pub day_key: String,
}

impl Account {
    /// The sum of the entries, where the save held none.
    pub open spec fn replayed(self) -> int {
        match self.start {
            LedgerStart::Seeded { record } => record.amount as int,
            _ => 0,
        }
    }

    /// The balance that the ledger adds up to, where the entries held in the save add up
    /// to `held`.
    pub open spec fn balance(self, held: int) -> int {
        if self.start is Kept {
            held
        } else {
            self.replayed()
        }
    }

    /// The account for a balance, the earnings of a day and the entries held in the save.
    pub open spec fn opens(
        self,
        coin: i64,
        earned_today: i64,
        day_key: Seq<char>,
        entries: nat,
    ) -> bool {
        &&& self.earned_today == earned_today
        &&& self.day_key@ == day_key
        &&& entries > 0 <==> self.start is Kept
        &&& entries == 0 && coin == 0 <==> self.start is Empty
        &&& self.start matches LedgerStart::Seeded { record } ==> {
            &&& record.seq == 1
            &&& record.at_ms == 0
            &&& record.ref_id@ == SEED_REF@
            &&& record.amount == coin
            &&& record.balance_after == coin
            &&& record.day_bucket@ == day_key
        }
    }
}

/// The account for what the save holds: a missing balance or earning counts as nothing,
/// `entries` is the number of ledger entries that could be read.
pub fn open_account(
    coin: Option<i64>,
    earned_today: Option<i64>,
    day_key: Option<String>,
    entries: Option<usize>,
) -> (r: Account)
    ensures
        r.opens(
            match coin {
                Some(n) => n,
                None => 0,
            },
            match earned_today {
                Some(n) => n,
                None => 0,
            },
            match day_key {
                Some(day) => day@,
                None => Seq::empty(),
            },
            match entries {
                Some(n) => n as nat,
                None => 0,
            },
        ),
{
    let coin: i64 = match coin {
        Some(n) => n,
        None => 0,
    };
    let earned_today: i64 = match earned_today {
        Some(n) => n,
        None => 0,
    };
    let day_key: String = match day_key {
        Some(day) => day,
        None => String::new(),
    };
    let held: usize = match entries {
        Some(n) => n,
        None => 0,
    };
    let start = if held > 0 {
        LedgerStart::Kept
    } else if coin == 0 {
        LedgerStart::Empty
    } else {
        LedgerStart::Seeded {
            record: SeedRecord {
                seq: 1,
                at_ms: 0,
                ref_id: SEED_REF.to_owned(),
                amount: coin,
                balance_after: coin,
                day_bucket: day_key.clone(),
            },
        }
    };
    Account { start, earned_today, day_key }
}

/// The account that a save holds in its economy section, of whose ledger `entries` can be
/// read.
pub fn restore_account(economy: &serde_json::Value, entries: Option<usize>) -> (r: Account)
    ensures
        r.opens(
            saved_whole(*economy, "coin"@),
            saved_whole(*economy, "earnedToday"@),
            saved_text(*economy, "dayKey"@),
            readable(entries),
        ),
{
    let coin: Option<i64> = match member(economy, "coin") {
        Some(value) => whole_of(value),
        None => None,
    };
    let earned_today: Option<i64> = match member(economy, "earnedToday") {
        Some(value) => whole_of(value),
        None => None,
    };
    let day_key: Option<String> = match member(economy, "dayKey") {
        Some(value) => words_of(value),
        None => None,
    };
    open_account(coin, earned_today, day_key, entries)
}

/// So many of one thing.
#[derive(Debug, PartialEq, Eq)]
pub struct Stock {
    pub item_id: String,
    pub count: u32,
}

/// How many of a thing there are; none of what is not listed.
pub open spec fn count_of(items: Seq<Stock>, item_id: Seq<char>) -> u32
    decreases items.len(),
{
    if items.len() == 0 {
        0
    } else if items[0].item_id@ == item_id {
        items[0].count
    } else {
        count_of(items.skip(1), item_id)
    }
}

/// What the pet owns. Orders and payments are booked by a shop and a ledger outside; what
/// they come to is taken over here.
#[derive(Debug, PartialEq, Eq)]
pub struct EconomyRuntime {
    pub account: Account,
    /// What the entries kept in the ledger add up to.
    pub held: i64,
    /// The things in the bag, each listed once.
    pub items: Vec<Stock>,
}

impl EconomyRuntime {
    /// The balance.
    pub open spec fn worth(self) -> int {
        self.account.balance(self.held as int)
    }

    /// The runtime over a section of the save, of whose ledger `entries` can be read and add
    /// up to `held`, and over the saved things.
    pub open spec fn reads(
        self,
        economy: serde_json::Value,
        entries: nat,
        held: i64,
        items: Seq<Stock>,
    ) -> bool {
        &&& self.account.opens(
            saved_whole(economy, "coin"@),
            saved_whole(economy, "earnedToday"@),
            saved_text(economy, "dayKey"@),
            entries,
        )
        &&& self.held == held
        &&& self.items@ == items
    }

    /// The section of the save for this runtime: balance, earnings and day, beside the
    /// ledger, the quotas and the achievements as they were given.
    pub open spec fn writes(
        self,
        economy: serde_json::Value,
        ledger: serde_json::Value,
        quotas: serde_json::Value,
        achievements: serde_json::Value,
    ) -> bool {
        let written = members(economy);
        &&& written.dom() == set![
            "coin"@, "ledger"@, "earnedToday"@, "dayKey"@, "quotas"@, "achievements"@,
        ]
        &&& whole(written["coin"@]) == Some(self.worth() as i64)
        &&& whole(written["earnedToday"@]) == Some(self.account.earned_today)
        &&& words(written["dayKey"@]) == Some(self.account.day_key@)
        &&& written["ledger"@] == ledger
        &&& written["quotas"@] == quotas
        &&& written["achievements"@] == achievements
    }

    /// What a save holds. `entries` is the number of ledger entries that could be read, and
    /// `held` what they add up to.
    pub fn restore(
        economy: &serde_json::Value,
        entries: Option<usize>,
        held: i64,
        items: Vec<Stock>,
    ) -> (r: Self)
        ensures
            r.reads(*economy, readable(entries), held, items@),
    {
        EconomyRuntime { account: restore_account(economy, entries), held, items }
    }

    /// The balance.
    pub fn balance(&self) -> (r: i64)
        ensures
            r == self.worth(),
    {
        match &self.account.start {
            LedgerStart::Kept => self.held,
            LedgerStart::Empty => 0,
            LedgerStart::Seeded { record } => record.amount,
        }
    }

    /// How many of a thing there are.
    pub fn inventory_count(&self, item_id: &str) -> (r: u32)
        ensures
            r == count_of(self.items@, item_id@),
    {
        let mut i: usize = 0;
        assert(self.items@.skip(0) =~= self.items@);
        while i < self.items.len()
            invariant
                i <= self.items.len(),
                count_of(self.items@, item_id@) == count_of(self.items@.skip(i as int), item_id@),
            decreases self.items.len() - i,
        {
            if text::equal(self.items[i].item_id.as_str(), item_id) {
                return self.items[i].count;
            }
            assert(self.items@.skip(i as int).skip(1) =~= self.items@.skip(i + 1));
            i = i + 1;
        }
        0
    }

    /// Takes over what the ledger and the bag hold after an order or a payment was booked.
    pub fn booked(
        &mut self,
        balance_after: i64,
        earned_today: i64,
        day_key: String,
        items: Vec<Stock>,
    )
        ensures
            final(self).worth() == balance_after,
            final(self).account.start == LedgerStart::Kept,
            final(self).account.earned_today == earned_today,
            final(self).account.day_key == day_key,
            final(self).items == items,
    {
        self.account = Account { start: LedgerStart::Kept, earned_today, day_key };
        self.held = balance_after;
        self.items = items;
    }

    /// The section of the save for this runtime, with what the ledger, the quotas and the
    /// achievements keep of their own.
    pub fn to_save_economy(
        &self,
        ledger: serde_json::Value,
        quotas: serde_json::Value,
        achievements: serde_json::Value,
    ) -> (r: serde_json::Value)
        ensures
            self.writes(r, ledger, quotas, achievements),
    {
        let mut listed: Vec<(String, serde_json::Value)> = Vec::new();
        listed.push(("coin".to_owned(), whole_value(self.balance())));
        listed.push(("ledger".to_owned(), ledger));
        listed.push(("earnedToday".to_owned(), whole_value(self.account.earned_today)));
        listed.push(("dayKey".to_owned(), text_value(self.account.day_key.as_str())));
        listed.push(("quotas".to_owned(), quotas));
        listed.push(("achievements".to_owned(), achievements));
        let ghost pairs = listed@;
        proof {
            lemma_section_names_differ();
            assert(pairs[0].0@ == "coin"@ && pairs[1].0@ == "ledger"@);
            assert(pairs[2].0@ == "earnedToday"@ && pairs[3].0@ == "dayKey"@);
            assert(pairs[4].0@ == "quotas"@ && pairs[5].0@ == "achievements"@);
        }
        let r = object_of(listed);
        proof {
            assert(members(r).dom() =~= set![
                "coin"@, "ledger"@, "earnedToday"@, "dayKey"@, "quotas"@, "achievements"@,
            ]);
        }
        r
    }

    /// The things for the save.
    pub fn to_save_inventory(&self) -> (r: Vec<Stock>)
        ensures
            r@ == self.items@,
    {
        let mut r: Vec<Stock> = Vec::new();
        let mut i: usize = 0;
        while i < self.items.len()
            invariant
                i <= self.items.len(),
                r@ == self.items@.take(i as int),
            decreases self.items.len() - i,
        {
            r.push(Stock { item_id: self.items[i].item_id.clone(), count: self.items[i].count });
            assert(r@ =~= self.items@.take(i + 1));
            i = i + 1;
        }
        assert(self.items@.take(i as int) =~= self.items@);
        r
    }
}

/// The names of the members of the section differ in their length or in how they begin.
proof fn lemma_section_names_differ()
    ensures
        "coin"@.len() == 4,
        "ledger"@.len() == 6 && "ledger"@[0] == 'l',
        "earnedToday"@.len() == 11,
        "dayKey"@.len() == 6 && "dayKey"@[0] == 'd',
        "quotas"@.len() == 6 && "quotas"@[0] == 'q',
        "achievements"@.len() == 12,
{
    reveal_strlit("coin");
    reveal_strlit("ledger");
    reveal_strlit("earnedToday");
    reveal_strlit("dayKey");
    reveal_strlit("quotas");
    reveal_strlit("achievements");
}

/// Without entries in the save the ledger still adds up to the balance.
pub proof fn lemma_ledger_adds_up(account: Account, coin: i64, earned_today: i64, day_key: Seq<char>)
    requires
        account.opens(coin, earned_today, day_key, 0),
    ensures
        account.replayed() == coin,
{
}

/// A balance survives saving: a save that holds it as its coins, with ledger entries that
/// add up to it or with none, is opened with that balance.
pub proof fn lemma_balance_survives_saving(
    account: Account,
    balance: i64,
    earned_today: i64,
    day_key: Seq<char>,
    entries: nat,
    held: int,
)
    requires
        account.opens(balance, earned_today, day_key, entries),
        entries > 0 ==> held == balance,
    ensures
        account.balance(held) == balance,
{
}

/// What the pet owns survives saving: a runtime that is read from the section and the things
/// that another one has written has its balance, its earnings and day, and as many of every
/// thing. The entries of the ledger that can be read, if any, add up to the balance.
pub proof fn lemma_runtime_survives_saving(
    before: EconomyRuntime,
    after: EconomyRuntime,
    economy: serde_json::Value,
    ledger: serde_json::Value,
    quotas: serde_json::Value,
    achievements: serde_json::Value,
    entries: nat,
    held: i64,
)
    requires
        before.writes(economy, ledger, quotas, achievements),
        after.reads(economy, entries, held, before.items@),
        entries > 0 ==> held == before.worth(),
    ensures
        after.worth() == before.worth(),
        after.account.earned_today == before.account.earned_today,
        after.account.day_key@ == before.account.day_key@,
        forall|item_id: Seq<char>| #[trigger]
            count_of(after.items@, item_id) == count_of(before.items@, item_id),
{
}

/// Where no entry of the ledger can be read, the balance is the saved one.
pub proof fn lemma_coins_without_a_ledger(
    after: EconomyRuntime,
    economy: serde_json::Value,
    held: i64,
    items: Seq<Stock>,
)
    requires
        after.reads(economy, 0, held, items),
    ensures
        after.worth() == saved_whole(economy, "coin"@),
{
}

/// Of a thing there are as many as its first line says, and none exactly where it is not listed
/// or listed as none.
pub proof fn lemma_count_is_the_listed_one(items: Seq<Stock>, item_id: Seq<char>)
    ensures
        (forall|i: int| 0 <= i < items.len() ==> (#[trigger] items[i]).item_id@ != item_id)
            ==> count_of(items, item_id) == 0,
        forall|i: int|
            #![trigger items[i]]
            0 <= i < items.len() && items[i].item_id@ == item_id && (forall|j: int|
                0 <= j < i ==> (#[trigger] items[j]).item_id@ != item_id) ==> count_of(
                items,
                item_id,
            ) == items[i].count,
    decreases items.len(),
{
    if items.len() > 0 {
        let rest = items.skip(1);
        lemma_count_is_the_listed_one(rest, item_id);
        assert forall|i: int| 0 <= i < rest.len() implies #[trigger] rest[i] == items[i + 1] by {}
        if items[0].item_id@ != item_id {
            assert forall|i: int|
                #![trigger items[i]]
                0 <= i < items.len() && items[i].item_id@ == item_id && (forall|j: int|
                    0 <= j < i ==> (#[trigger] items[j]).item_id@ != item_id) implies count_of(
                items,
                item_id,
            ) == items[i].count by {
                assert(rest[i - 1] == items[i]);
                assert forall|j: int| 0 <= j < i - 1 implies (#[trigger] rest[j]).item_id@
                    != item_id by {
                    assert(rest[j] == items[j + 1]);
                }
            }
            if forall|i: int| 0 <= i < items.len() ==> (#[trigger] items[i]).item_id@ != item_id {
                assert forall|i: int| 0 <= i < rest.len() implies (#[trigger] rest[i]).item_id@
                    != item_id by {
                    assert(rest[i] == items[i + 1]);
                }
            }
        }
    }
}

/// What a section does not hold, or holds as another kind of value, counts as nothing.
pub proof fn lemma_missing_members_count_as_nothing(section: serde_json::Value, name: Seq<char>)
    ensures
        !members(section).dom().contains(name) ==> saved_whole(section, name) == 0 && saved_text(
            section,
            name,
        ).len() == 0,
        members(section).dom().contains(name) ==> {
            &&& whole(members(section)[name]) matches Some(n) ==> saved_whole(section, name) == n
            &&& words(members(section)[name]) matches Some(w) ==> saved_text(section, name) == w
            &&& words(members(section)[name]) is None ==> saved_text(section, name).len() == 0
        },
        members(section).dom().contains(name) && whole(members(section)[name]) is None
            ==> saved_whole(section, name) == 0,
{
}

/// An account opens with the ledger of the save where it holds entries, with one entry over the
/// balance where it holds a balance only, and without an entry where it holds neither.
pub proof fn lemma_ledgers_start_as_the_save_holds_them(
    account: Account,
    coin: i64,
    earned_today: i64,
    day_key: Seq<char>,
    entries: nat,
)
    requires
        account.opens(coin, earned_today, day_key, entries),
    ensures
        account.earned_today == earned_today,
        account.day_key@ == day_key,
        account.start == LedgerStart::Kept <==> entries > 0,
        account.start is Seeded <==> entries == 0 && coin != 0,
        account.start matches LedgerStart::Seeded { record } ==> record.amount == coin
            && record.balance_after == coin && record.seq == 1 && record.at_ms == 0
            && record.day_bucket@ == day_key && record.ref_id@ == "restore:seed"@,
{
}

} // verus!
