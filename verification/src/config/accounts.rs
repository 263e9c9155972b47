//! Stored accounts: their metadata, their keys and the default among them.
//!
//! [`AccountStore`] holds what the accounts file says. Its methods decide what an operation does
//! and return what is to be written to, or dropped from, the key files; reading and writing the
//! files themselves is the caller's part.

use super::{ConfigError, ConfigPaths, FileRead, IoFailure, Location};
use crate::nonzero;
use crate::nonzero::NonZeroU32;
use crate::text;
use vstd::prelude::*;
use vstd::string::*;

verus! {

/// Descriptive metadata of an account.
#[derive(Debug, PartialEq, Eq)]
pub struct AccountProfile {
    pub label: Option<String>,
    pub email: Option<String>,
    pub description: Option<String>,
}

/// The texts of a profile.
#[verifier::ext_equal]
pub struct ProfileView {
    pub label: Option<Seq<char>>,
    pub email: Option<Seq<char>>,
    pub description: Option<Seq<char>>,
}

impl View for AccountProfile {
    type V = ProfileView;

    open spec fn view(&self) -> ProfileView {
        ProfileView {
            label: self.label.deep_view(),
            email: self.email.deep_view(),
            description: self.description.deep_view(),
        }
    }
}

impl Clone for AccountProfile {
    fn clone(&self) -> (copy: AccountProfile)
        ensures
            copy == *self,
    {
        AccountProfile {
            label: self.label.clone(),
            email: self.email.clone(),
            description: self.description.clone(),
        }
    }
}

impl Default for AccountProfile {
    fn default() -> (profile: AccountProfile)
        ensures
            profile.label is None,
            profile.email is None,
            profile.description is None,
    {
        AccountProfile { label: None, email: None, description: None }
    }
}

/// What is known of one account besides its alias.
#[verifier::ext_equal]
pub struct DetailsView {
    pub profile: ProfileView,
    pub daily_budget: Option<u32>,
}

/// One line of the accounts file.
#[derive(Debug)]
pub struct AccountEntry {
    pub alias: String,
    pub profile: AccountProfile,
    pub daily_budget: Option<NonZeroU32>,
}

impl AccountEntry {
    /// What is known of the account besides its alias.
    pub open spec fn details(self) -> DetailsView {
        DetailsView { profile: self.profile@, daily_budget: nonzero::plain(self.daily_budget) }
    }
}

/// Metadata exposed when listing accounts.
#[derive(Debug)]
pub struct AccountSummary {
    pub alias: String,
    pub profile: AccountProfile,
    pub is_default: bool,
    pub daily_budget: Option<NonZeroU32>,
}

/// Exported account metadata for sharing without secrets.
#[derive(Debug, PartialEq, Eq)]
pub struct AccountExport {
    pub alias: String,
    pub is_default: bool,
    pub label: Option<String>,
    pub email: Option<String>,
    pub description: Option<String>,
    pub daily_budget: Option<u32>,
}

/// Full account record with secrets.
#[derive(Debug)]
pub struct AccountRecord {
    pub alias: String,
    pub api_key: String,
    pub profile: AccountProfile,
    pub is_default: bool,
    pub daily_budget: Option<NonZeroU32>,
}

/// The texts and numbers of a record.
#[verifier::ext_equal]
pub struct RecordView {
    pub alias: Seq<char>,
    pub api_key: Seq<char>,
    pub profile: ProfileView,
    pub is_default: bool,
    pub daily_budget: Option<u32>,
}

impl View for AccountRecord {
    type V = RecordView;

    open spec fn view(&self) -> RecordView {
        RecordView {
            alias: self.alias@,
            api_key: self.api_key@,
            profile: self.profile@,
            is_default: self.is_default,
            daily_budget: nonzero::plain(self.daily_budget),
        }
    }
}

/// Errors of the account store.
#[derive(Debug)]
pub enum AccountStoreError {
    Config(ConfigError),
    Io(IoFailure),
    Deserialize(String),
    Serialize(String),
    DuplicateAlias(String),
    InvalidAlias(String),
    AccountNotFound(String),
    EmptyApiKey,
}

impl AccountStoreError {
    /// The message shown to the user.
    pub open spec fn text(self) -> Seq<char> {
        match self {
            AccountStoreError::Config(e) => "configuration error: "@ + e.text(),
            AccountStoreError::Io(failure) => "I/O error at "@ + failure.path@,
            AccountStoreError::Deserialize(e) => "failed to parse accounts file: "@ + e@,
            AccountStoreError::Serialize(e) => "failed to serialise accounts file: "@ + e@,
            AccountStoreError::DuplicateAlias(a) => "account alias already exists: "@ + a@,
            AccountStoreError::InvalidAlias(m) => "account alias is invalid: "@ + m@,
            AccountStoreError::AccountNotFound(a) => "account not found: "@ + a@,
            AccountStoreError::EmptyApiKey => "API key cannot be empty"@,
        }
    }

    /// Renders the message shown to the user.
    pub fn message(&self) -> (text: String)
        ensures
            text@ == self.text(),
    {
        match self {
            AccountStoreError::Config(e) =>
                "configuration error: ".to_owned().concat(e.message().as_str()),
            AccountStoreError::Io(failure) =>
                "I/O error at ".to_owned().concat(failure.path.as_str()),
            AccountStoreError::Deserialize(e) =>
                "failed to parse accounts file: ".to_owned().concat(e.as_str()),
            AccountStoreError::Serialize(e) =>
                "failed to serialise accounts file: ".to_owned().concat(e.as_str()),
            AccountStoreError::DuplicateAlias(a) =>
                "account alias already exists: ".to_owned().concat(a.as_str()),
            AccountStoreError::InvalidAlias(m) =>
                "account alias is invalid: ".to_owned().concat(m.as_str()),
            AccountStoreError::AccountNotFound(a) =>
                "account not found: ".to_owned().concat(a.as_str()),
            AccountStoreError::EmptyApiKey => "API key cannot be empty".to_owned(),
        }
    }
}

/// What is wrong with an alias, if anything.
pub open spec fn alias_fault(alias: Seq<char>) -> Option<Seq<char>> {
    if text::trimmed(alias).len() == 0 {
        Some("alias cannot be empty"@)
    } else if text::has_char(alias, '/') || text::has_char(alias, '\\') {
        Some("alias may not contain path separators"@)
    } else if text::has_double(alias, '.') {
        Some("alias may not contain parent directory segments"@)
    } else {
        None
    }
}

/// Checks that an alias can name a key file.
pub fn validate_alias(alias: &str) -> (outcome: Result<(), AccountStoreError>)
    ensures
        match alias_fault(alias@) {
            Some(fault) => outcome matches Err(AccountStoreError::InvalidAlias(m)) && m@ == fault,
            None => outcome is Ok,
        },
{
    if text::is_blank(alias) {
        return Err(AccountStoreError::InvalidAlias("alias cannot be empty".to_owned()));
    }
    if text::contains_char(alias, '/') || text::contains_char(alias, '\\') {
        return Err(
            AccountStoreError::InvalidAlias("alias may not contain path separators".to_owned()),
        );
    }
    if text::contains_double(alias, '.') {
        return Err(
            AccountStoreError::InvalidAlias(
                "alias may not contain parent directory segments".to_owned(),
            ),
        );
    }
    Ok(())
}

/// The accounts and the default among them.
#[verifier::ext_equal]
pub struct StateView {
    pub default_account: Option<Seq<char>>,
    pub accounts: Map<Seq<char>, DetailsView>,
}

/// The alias that comes first in alphabetical order.
pub open spec fn first_alias(accounts: Map<Seq<char>, DetailsView>) -> Option<Seq<char>> {
    if exists|a: Seq<char>| accounts.contains_key(a) {
        Some(
            choose|a: Seq<char>|
                #![trigger accounts.contains_key(a)]
                accounts.contains_key(a) && forall|b: Seq<char>|
                    accounts.contains_key(b) && b != a ==> text::before(a, b),
        )
    } else {
        None
    }
}

impl StateView {
    /// Whether there are finitely many accounts, the default, if there is one, is among them, and
    /// there is one as soon as there are accounts.
    pub open spec fn coherent(self) -> bool {
        &&& self.accounts.dom().finite()
        &&& self.default_account matches Some(alias) ==> self.accounts.contains_key(alias)
        &&& self.default_account is None ==> self.accounts =~= Map::empty()
    }

    /// What is known of an account whose key file holds `key`.
    pub open spec fn record(self, alias: Seq<char>, key: Seq<char>) -> Option<RecordView> {
        if self.accounts.contains_key(alias) {
            Some(
                RecordView {
                    alias,
                    api_key: text::trimmed(key),
                    profile: self.accounts[alias].profile,
                    is_default: is_default(self, alias),
                    daily_budget: self.accounts[alias].daily_budget,
                },
            )
        } else {
            None
        }
    }

    /// The store with one account more. It becomes the default if there is none.
    pub open spec fn with_account(self, alias: Seq<char>, profile: ProfileView) -> StateView {
        StateView {
            default_account: if self.default_account is None {
                Some(alias)
            } else {
                self.default_account
            },
            accounts: self.accounts.insert(alias, DetailsView { profile, daily_budget: None }),
        }
    }

    /// The store with another default.
    pub open spec fn with_default(self, alias: Seq<char>) -> StateView {
        StateView { default_account: Some(alias), ..self }
    }

    /// The store without an account. If it was the default, the alphabetically first of the
    /// others takes its place.
    pub open spec fn without_account(self, alias: Seq<char>) -> StateView {
        let rest = self.accounts.remove(alias);
        StateView {
            default_account: if self.default_account == Some(alias) {
                first_alias(rest)
            } else {
                self.default_account
            },
            accounts: rest,
        }
    }

    /// The store with another daily budget for one account.
    pub open spec fn with_budget(self, alias: Seq<char>, budget: Option<u32>) -> StateView {
        StateView {
            accounts: self.accounts.insert(
                alias,
                DetailsView { daily_budget: budget, ..self.accounts[alias] },
            ),
            ..self
        }
    }
}

/// The accounts that a list of entries describes; a later entry replaces an earlier one of the
/// same alias.
pub open spec fn collected(entries: Seq<AccountEntry>) -> Map<Seq<char>, DetailsView>
    decreases entries.len(),
{
    if entries.len() == 0 {
        Map::empty()
    } else {
        collected(entries.drop_last()).insert(entries.last().alias@, entries.last().details())
    }
}

/// Whether the aliases of a list are in strictly ascending alphabetical order.
pub open spec fn ascending(entries: Seq<AccountEntry>) -> bool {
    forall|i: int, j: int|
        0 <= i < j < entries.len() ==> text::before(#[trigger] entries[i].alias@, #[trigger] entries[j].alias@)
}

/// What the accounts file holds.
#[derive(Debug)]
pub struct AccountsState {
    pub default_account: Option<String>,
    pub accounts: Vec<AccountEntry>,
}

impl View for AccountsState {
    type V = StateView;

    open spec fn view(&self) -> StateView {
        StateView {
            default_account: self.default_account.deep_view(),
            accounts: collected(self.accounts@),
        }
    }
}

proof fn lemma_collected_has(entries: Seq<AccountEntry>, i: int)
    requires
        ascending(entries),
        0 <= i < entries.len(),
    ensures
        collected(entries).contains_key(entries[i].alias@),
        collected(entries)[entries[i].alias@] == entries[i].details(),
    decreases entries.len(),
{
    let init = entries.drop_last();
    if i < init.len() {
        assert(init[i] == entries[i]);
        assert(ascending(init));
        lemma_collected_has(init, i);
        assert(text::before(entries[i].alias@, entries[entries.len() - 1].alias@));
        text::lemma_before_irreflexive(entries[i].alias@);
    }
}

proof fn lemma_collected_index(entries: Seq<AccountEntry>, alias: Seq<char>) -> (i: int)
    requires
        collected(entries).contains_key(alias),
    ensures
        0 <= i < entries.len(),
        entries[i].alias@ == alias,
    decreases entries.len(),
{
    if entries.last().alias@ == alias {
        entries.len() - 1
    } else {
        lemma_collected_index(entries.drop_last(), alias)
    }
}

/// Two ascending lists that hold the same accounts describe the same map.
proof fn lemma_collected_insert(
    entries: Seq<AccountEntry>,
    at: int,
    entry: AccountEntry,
    longer: Seq<AccountEntry>,
)
    requires
        ascending(entries),
        ascending(longer),
        0 <= at <= entries.len(),
        longer == entries.insert(at, entry),
    ensures
        collected(longer) == collected(entries).insert(entry.alias@, entry.details()),
{
    let new = collected(longer);
    let expected = collected(entries).insert(entry.alias@, entry.details());
    assert(longer[at] == entry);
    lemma_collected_has(longer, at);
    assert forall|a: Seq<char>| #[trigger] new.dom().contains(a) implies expected.dom().contains(a) && new[a]
        == expected[a] by {
        let i = lemma_collected_index(longer, a);
        lemma_collected_has(longer, i);
        if i < at {
            assert(longer[i] == entries[i]);
            lemma_collected_has(entries, i);
            assert(text::before(longer[i].alias@, longer[at].alias@));
            text::lemma_before_irreflexive(a);
        } else if i > at {
            assert(longer[i] == entries[i - 1]);
            lemma_collected_has(entries, i - 1);
            assert(text::before(longer[at].alias@, longer[i].alias@));
            text::lemma_before_irreflexive(a);
        }
    }
    assert forall|a: Seq<char>| #[trigger] expected.dom().contains(a) implies new.dom().contains(a) by {
        if a != entry.alias@ {
            let i = lemma_collected_index(entries, a);
            if i < at {
                assert(longer[i] == entries[i]);
                lemma_collected_has(longer, i);
            } else {
                assert(longer[i + 1] == entries[i]);
                lemma_collected_has(longer, i + 1);
            }
        }
    }
    assert(new =~= expected);
}

/// Replacing the details of one entry replaces them in the map.
proof fn lemma_collected_update(entries: Seq<AccountEntry>, at: int, entry: AccountEntry)
    requires
        ascending(entries),
        0 <= at < entries.len(),
        entry.alias@ == entries[at].alias@,
    ensures
        ascending(entries.update(at, entry)),
        collected(entries.update(at, entry)) == collected(entries).insert(
            entry.alias@,
            entry.details(),
        ),
{
    let other = entries.update(at, entry);
    assert forall|i: int, j: int| 0 <= i < j < other.len() implies text::before(
        #[trigger] other[i].alias@,
        #[trigger] other[j].alias@,
    ) by {
        assert(text::before(entries[i].alias@, entries[j].alias@));
    }
    let new = collected(other);
    let expected = collected(entries).insert(entry.alias@, entry.details());
    assert forall|a: Seq<char>| #[trigger] new.dom().contains(a) implies expected.dom().contains(a) && new[a]
        == expected[a] by {
        let i = lemma_collected_index(other, a);
        lemma_collected_has(other, i);
        lemma_collected_has(entries, i);
        if i < at {
            assert(text::before(entries[i].alias@, entries[at].alias@));
            text::lemma_before_irreflexive(a);
        } else if i > at {
            assert(text::before(entries[at].alias@, entries[i].alias@));
            text::lemma_before_irreflexive(a);
        }
    }
    assert forall|a: Seq<char>| #[trigger] expected.dom().contains(a) implies new.dom().contains(a) by {
        if a == entry.alias@ {
            lemma_collected_has(other, at);
        } else {
            let i = lemma_collected_index(entries, a);
            lemma_collected_has(other, i);
        }
    }
    assert(new =~= expected);
}

/// Dropping one entry drops its account.
proof fn lemma_collected_remove(entries: Seq<AccountEntry>, at: int)
    requires
        ascending(entries),
        0 <= at < entries.len(),
    ensures
        ascending(entries.remove(at)),
        collected(entries.remove(at)) == collected(entries).remove(entries[at].alias@),
{
    let rest = entries.remove(at);
    let alias = entries[at].alias@;
    assert forall|i: int, j: int| 0 <= i < j < rest.len() implies text::before(
        #[trigger] rest[i].alias@,
        #[trigger] rest[j].alias@,
    ) by {
        let x = if i < at { i } else { i + 1 };
        let y = if j < at { j } else { j + 1 };
        assert(rest[i] == entries[x] && rest[j] == entries[y]);
        assert(text::before(entries[x].alias@, entries[y].alias@));
    }
    let new = collected(rest);
    let expected = collected(entries).remove(alias);
    assert forall|a: Seq<char>| #[trigger] new.dom().contains(a) implies expected.dom().contains(a) && new[a]
        == expected[a] by {
        let i = lemma_collected_index(rest, a);
        let x = if i < at { i } else { i + 1 };
        assert(rest[i] == entries[x]);
        lemma_collected_has(rest, i);
        lemma_collected_has(entries, x);
        if x < at {
            assert(text::before(entries[x].alias@, entries[at].alias@));
        } else {
            assert(text::before(entries[at].alias@, entries[x].alias@));
        }
        text::lemma_before_irreflexive(a);
    }
    assert forall|a: Seq<char>| #[trigger] expected.dom().contains(a) implies new.dom().contains(a) by {
        let x = lemma_collected_index(entries, a);
        let i = if x < at { x } else { x - 1 };
        assert(rest[i] == entries[x]);
        lemma_collected_has(rest, i);
    }
    assert(new =~= expected);
}

/// The first entry of an ascending list is the alphabetically first account.
proof fn lemma_first(entries: Seq<AccountEntry>)
    requires
        ascending(entries),
    ensures
        first_alias(collected(entries)) == (if entries.len() > 0 {
            Some(entries[0].alias@)
        } else {
            None
        }),
{
    let accounts = collected(entries);
    if entries.len() > 0 {
        let first = entries[0].alias@;
        lemma_collected_has(entries, 0);
        assert forall|b: Seq<char>| accounts.contains_key(b) && b != first implies text::before(
            first,
            b,
        ) by {
            let i = lemma_collected_index(entries, b);
            assert(text::before(entries[0].alias@, entries[i].alias@));
        }
        let chosen = first_alias(accounts).unwrap();
        assert(accounts.contains_key(chosen) && forall|b: Seq<char>|
            accounts.contains_key(b) && b != chosen ==> text::before(chosen, b));
        if chosen != first {
            assert(text::before(chosen, first) && text::before(first, chosen));
            text::lemma_before_transitive(first, chosen, first);
            text::lemma_before_irreflexive(first);
        }
    } else {
        assert forall|a: Seq<char>| !accounts.contains_key(a) by {}
    }
}

impl Default for AccountsState {
    fn default() -> (state: AccountsState)
        ensures
            state.wf(),
            state@.default_account is None,
            state@.accounts == Map::<Seq<char>, DetailsView>::empty(),
    {
        AccountsState { default_account: None, accounts: Vec::new() }
    }
}

impl AccountsState {
    /// Whether the entries are in strictly ascending alphabetical order of their aliases.
    pub open spec fn wf(self) -> bool {
        ascending(self.accounts@)
    }

    /// The position at which the entry of an alias stands, or where it would have to be inserted.
    fn position(&self, alias: &str) -> (at: (usize, bool))
        requires
            self.wf(),
        ensures
            at.0 <= self.accounts@.len(),
            at.1 <==> self@.accounts.contains_key(alias@),
            at.1 ==> at.0 < self.accounts@.len() && self.accounts@[at.0 as int].alias@ == alias@,
            !at.1 ==> forall|i: int|
                #![trigger self.accounts@[i]]
                0 <= i < self.accounts@.len() ==> if i < at.0 {
                    text::before(self.accounts@[i].alias@, alias@)
                } else {
                    text::before(alias@, self.accounts@[i].alias@)
                },
    {
        let ghost entries = self.accounts@;
        let mut i: usize = 0;
        while i < self.accounts.len() && text::precedes(self.accounts[i].alias.as_str(), alias)
            invariant
                i <= entries.len(),
                entries == self.accounts@,
                forall|k: int| #![trigger entries[k]] 0 <= k < i ==> text::before(entries[k].alias@, alias@),
            decreases entries.len() - i,
        {
            i = i + 1;
        }
        let found = i < self.accounts.len() && text::same(self.accounts[i].alias.as_str(), alias);
        proof {
            if found {
                lemma_collected_has(entries, i as int);
            } else {
                if i < entries.len() {
                    text::lemma_before_total(entries[i as int].alias@, alias@);
                }
                assert forall|k: int| #![trigger entries[k]] i <= k < entries.len() implies text::before(
                    alias@,
                    entries[k].alias@,
                ) by {
                    if k > i {
                        assert(text::before(entries[i as int].alias@, entries[k].alias@));
                        text::lemma_before_transitive(alias@, entries[i as int].alias@, entries[k].alias@);
                    }
                }
                if self@.accounts.contains_key(alias@) {
                    let k = lemma_collected_index(entries, alias@);
                    assert(entries[k].alias@ == alias@);
                    text::lemma_before_irreflexive(alias@);
                }
            }
        }
        (i, found)
    }

    /// Puts an entry in its place, instead of the one with the same alias if there is one.
    pub fn put(&mut self, entry: AccountEntry)
        requires
            old(self).wf(),
        ensures
            final(self).wf(),
            final(self)@ == (StateView {
                accounts: old(self)@.accounts.insert(entry.alias@, entry.details()),
                ..old(self)@
            }),
            final(self).default_account == old(self).default_account,
    {
        let ghost entries = self.accounts@;
        let (at, found) = self.position(entry.alias.as_str());
        if found {
            proof {
                lemma_collected_update(entries, at as int, entry);
            }
            self.accounts.set(at, entry);
        } else {
            self.accounts.insert(at, entry);
            proof {
                let longer = self.accounts@;
                assert(longer == entries.insert(at as int, entry));
                assert forall|i: int, j: int| 0 <= i < j < longer.len() implies text::before(
                    #[trigger] longer[i].alias@,
                    #[trigger] longer[j].alias@,
                ) by {
                    let x = if i < at { i } else { i - 1 };
                    let y = if j < at { j } else { j - 1 };
                    assert(i != at ==> longer[i] == entries[x]);
                    assert(j != at ==> longer[j] == entries[y]);
                    if i != at && j != at {
                        assert(text::before(entries[x].alias@, entries[y].alias@));
                    }
                }
                lemma_collected_insert(entries, at as int, entry, longer);
            }
        }
    }

    /// Collects entries read from a file; a later entry replaces an earlier one of the same alias.
    pub fn from_entries(default_account: Option<String>, entries: Vec<AccountEntry>) -> (state:
        AccountsState)
        ensures
            state.wf(),
            state.default_account == default_account,
            state@.accounts == collected(entries@),
        decreases entries@.len(),
    {
        let mut rest = entries;
        match rest.pop() {
            None => {
                assert(collected(entries@) == Map::<Seq<char>, DetailsView>::empty());
                AccountsState { default_account, accounts: Vec::new() }
            },
            Some(last) => {
                let mut state = AccountsState::from_entries(default_account, rest);
                assert(rest@ =~= entries@.drop_last());
                state.put(last);
                state
            },
        }
    }
}

/// How the state of the store is to be had once its file was read.
#[derive(Debug)]
pub enum StateSource {
    /// There is nothing stored yet.
    Fresh,
    /// The text is the stored state, in JSON.
    Parse(String),
}

/// What is to be written to the key file of an account.
#[derive(Debug)]
pub struct SecretWrite {
    pub path: Location,
    pub contents: String,
}

/// Whether `alias` is the default account of a store.
pub open spec fn is_default(state: StateView, alias: Seq<char>) -> bool {
    state.default_account == Some(alias)
}

impl AccountSummary {
    /// What the summary says of the account besides its alias.
    pub open spec fn details(self) -> DetailsView {
        DetailsView { profile: self.profile@, daily_budget: nonzero::plain(self.daily_budget) }
    }
}

impl AccountExport {
    /// What the export says of the account besides its alias.
    pub open spec fn details(self) -> DetailsView {
        DetailsView {
            profile: ProfileView {
                label: self.label.deep_view(),
                email: self.email.deep_view(),
                description: self.description.deep_view(),
            },
            daily_budget: self.daily_budget,
        }
    }
}

/// Whether a list shows every account of a store once, in alphabetical order, and marks the
/// default.
pub open spec fn lists(state: StateView, list: Seq<AccountSummary>) -> bool {
    &&& forall|i: int, j: int|
        0 <= i < j < list.len() ==> text::before(#[trigger] list[i].alias@, #[trigger] list[j].alias@)
    &&& forall|i: int| #![trigger list[i]] 0 <= i < list.len() ==> {
        &&& state.accounts.contains_key(list[i].alias@)
        &&& list[i].details() == state.accounts[list[i].alias@]
        &&& list[i].is_default == is_default(state, list[i].alias@)
    }
    &&& forall|a: Seq<char>| #[trigger]
        state.accounts.contains_key(a) ==> exists|i: int|
            0 <= i < list.len() && (#[trigger] list[i]).alias@ == a
}

/// Whether a list exports every account of a store once, in alphabetical order, and marks the
/// default.
pub open spec fn exports(state: StateView, list: Seq<AccountExport>) -> bool {
    &&& forall|i: int, j: int|
        0 <= i < j < list.len() ==> text::before(#[trigger] list[i].alias@, #[trigger] list[j].alias@)
    &&& forall|i: int| #![trigger list[i]] 0 <= i < list.len() ==> {
        &&& state.accounts.contains_key(list[i].alias@)
        &&& list[i].details() == state.accounts[list[i].alias@]
        &&& list[i].is_default == is_default(state, list[i].alias@)
    }
    &&& forall|a: Seq<char>| #[trigger]
        state.accounts.contains_key(a) ==> exists|i: int|
            0 <= i < list.len() && (#[trigger] list[i]).alias@ == a
}

/// Top-level account store coordinating metadata and secrets.
#[derive(Debug)]
pub struct AccountStore {
    paths: ConfigPaths,
    state: AccountsState,
}

impl View for AccountStore {
    type V = StateView;

    closed spec fn view(&self) -> StateView {
        self.state@
    }
}

impl AccountStore {
    /// Whether the entries are kept in order.
    pub closed spec fn wf(self) -> bool {
        self.state.wf()
    }

    /// The configuration root that the store lives in.
    pub closed spec fn root(self) -> std::path::PathBuf {
        self.paths@
    }

    /// Initialise an account store for the provided configuration paths, given whether their
    /// directories could be created. Nothing is stored in it yet.
    pub fn new(paths: ConfigPaths, prepared: Result<(), ConfigError>) -> (store: Result<
        AccountStore,
        AccountStoreError,
    >)
        ensures
            match prepared {
                Ok(_) => store matches Ok(s) && s.wf() && s.root() == paths@
                    && s@.default_account is None && s@.accounts == Map::<
                    Seq<char>,
                    DetailsView,
                >::empty(),
                Err(e) => store == Err::<AccountStore, _>(AccountStoreError::Config(e)),
            },
    {
        match prepared {
            Ok(_) => Ok(AccountStore { paths, state: AccountsState::default() }),
            Err(e) => Err(AccountStoreError::Config(e)),
        }
    }

    /// The same store with the state that its file holds.
    pub fn with_state(self, state: AccountsState) -> (store: AccountStore)
        requires
            state.wf(),
        ensures
            store.wf(),
            store.root() == self.root(),
            store@ == state@,
    {
        AccountStore { paths: self.paths, state }
    }

    /// Whether this is how the state of the store is to be had, given what came of reading its file.
    pub open spec fn reads(
        source: Result<StateSource, AccountStoreError>,
        read: FileRead<String>,
    ) -> bool {
        match read {
            FileRead::Found(contents) => if text::trimmed(contents@).len() == 0 {
                source == Ok::<_, AccountStoreError>(StateSource::Fresh)
            } else {
                source == Ok::<_, AccountStoreError>(StateSource::Parse(contents))
            },
            FileRead::Missing => source == Ok::<_, AccountStoreError>(StateSource::Fresh),
            FileRead::Failed(failure) => source == Err::<StateSource, _>(
                AccountStoreError::Io(failure),
            ),
        }
    }

    /// How the state of the store is to be had, given what came of reading its file. A file that
    /// is missing or blank stands for an empty store.
    pub fn read_state(read: FileRead<String>) -> (source: Result<StateSource, AccountStoreError>)
        ensures
            AccountStore::reads(source, read),
    {
        match read {
            FileRead::Found(contents) => {
                if text::is_blank(contents.as_str()) {
                    Ok(StateSource::Fresh)
                } else {
                    Ok(StateSource::Parse(contents))
                }
            },
            FileRead::Missing => Ok(StateSource::Fresh),
            FileRead::Failed(failure) => Err(AccountStoreError::Io(failure)),
        }
    }

    /// What the accounts file is to hold.
    pub fn state(&self) -> (state: &AccountsState)
        requires
            self.wf(),
        ensures
            state.wf(),
            state@ == self@,
    {
        &self.state
    }

    /// The path of the key file of an alias.
    pub fn secret_path(&self, alias: &str) -> (path: Location)
        ensures
            path.is(self.root(), seq!["accounts"@, alias@ + ".key"@]),
    {
        self.paths.grandchild("accounts", alias.to_owned().concat(".key"))
    }

    /// Add an account entry. The key that is returned has to be stored along with the state.
    pub fn add_account(&mut self, alias: &str, api_key: &str, profile: AccountProfile) -> (outcome:
        Result<SecretWrite, AccountStoreError>)
        requires
            old(self).wf(),
        ensures
            final(self).wf(),
            final(self).root() == old(self).root(),
            match alias_fault(alias@) {
                Some(fault) => outcome matches Err(AccountStoreError::InvalidAlias(m)) && m@ == fault,
                None => if text::trimmed(api_key@).len() == 0 {
                    outcome matches Err(AccountStoreError::EmptyApiKey)
                } else if old(self)@.accounts.contains_key(alias@) {
                    outcome matches Err(AccountStoreError::DuplicateAlias(a)) && a@ == alias@
                } else {
                    &&& outcome matches Ok(key)
                    &&& key.path.is(old(self).root(), seq!["accounts"@, alias@ + ".key"@])
                    &&& key.contents@ == api_key@
                    &&& final(self)@ == old(self)@.with_account(alias@, profile@)
                },
            },
            outcome is Err ==> *final(self) == *old(self),
    {
        match validate_alias(alias) {
            Ok(_) => {},
            Err(e) => {
                return Err(e);
            },
        }
        if text::is_blank(api_key) {
            return Err(AccountStoreError::EmptyApiKey);
        }
        let (at, found) = self.state.position(alias);
        if found {
            return Err(AccountStoreError::DuplicateAlias(alias.to_owned()));
        }
        let ghost before = self@;
        self.state.put(AccountEntry { alias: alias.to_owned(), profile, daily_budget: None });
        if self.state.default_account.is_none() {
            self.state.default_account = Some(alias.to_owned());
        }
        assert(self@ =~= before.with_account(alias@, profile@));
        Ok(SecretWrite { path: self.secret_path(alias), contents: api_key.to_owned() })
    }

    /// Retrieve metadata and API key for a given alias, given what came of reading its key file.
    pub fn get_account(&self, alias: &str, key_file: Result<String, IoFailure>) -> (outcome: Result<
        AccountRecord,
        AccountStoreError,
    >)
        requires
            self.wf(),
        ensures
            if !self@.accounts.contains_key(alias@) {
                outcome matches Err(AccountStoreError::AccountNotFound(a)) && a@ == alias@
            } else {
                match key_file {
                    Err(failure) => outcome == Err::<AccountRecord, _>(
                        AccountStoreError::Io(failure),
                    ),
                    Ok(contents) => outcome matches Ok(record) && Some(record@) == self@.record(
                        alias@,
                        contents@,
                    ),
                }
            },
    {
        let (at, found) = self.state.position(alias);
        if !found {
            return Err(AccountStoreError::AccountNotFound(alias.to_owned()));
        }
        proof {
            lemma_collected_has(self.state.accounts@, at as int);
        }
        let entry = &self.state.accounts[at];
        match key_file {
            Err(failure) => Err(AccountStoreError::Io(failure)),
            Ok(contents) => Ok(
                AccountRecord {
                    alias: alias.to_owned(),
                    api_key: text::trim(contents.as_str()),
                    profile: entry.profile.clone(),
                    is_default: self.is_default_alias(alias),
                    daily_budget: entry.daily_budget,
                },
            ),
        }
    }

    /// Whether there is an account of the given alias.
    pub fn has_account(&self, alias: &str) -> (yes: bool)
        requires
            self.wf(),
        ensures
            yes == self@.accounts.contains_key(alias@),
    {
        let (at, found) = self.state.position(alias);
        found
    }

    /// Whether an alias is the default.
    fn is_default_alias(&self, alias: &str) -> (yes: bool)
        ensures
            yes == is_default(self@, alias@),
    {
        match &self.state.default_account {
            Some(default) => text::same(default.as_str(), alias),
            None => false,
        }
    }

    /// Enumerate stored accounts.
    pub fn list_accounts(&self) -> (list: Vec<AccountSummary>)
        requires
            self.wf(),
        ensures
            lists(self@, list@),
    {
        let mut list: Vec<AccountSummary> = Vec::new();
        let ghost entries = self.state.accounts@;
        let mut i: usize = 0;
        while i < self.state.accounts.len()
            invariant
                i <= entries.len(),
                entries == self.state.accounts@,
                list@.len() == i,
                forall|k: int|
                    #![trigger list@[k]]
                    0 <= k < i ==> list@[k].alias == entries[k].alias && list@[k].profile
                        == entries[k].profile && list@[k].daily_budget == entries[k].daily_budget
                        && list@[k].is_default == is_default(self@, entries[k].alias@),
            decreases entries.len() - i,
        {
            let entry = &self.state.accounts[i];
            list.push(
                AccountSummary {
                    alias: entry.alias.clone(),
                    profile: entry.profile.clone(),
                    is_default: self.is_default_alias(entry.alias.as_str()),
                    daily_budget: entry.daily_budget,
                },
            );
            i = i + 1;
        }
        proof {
            assert forall|k: int| #![trigger list@[k]] 0 <= k < list@.len() implies {
                &&& self@.accounts.contains_key(list@[k].alias@)
                &&& list@[k].details() == self@.accounts[list@[k].alias@]
            } by {
                lemma_collected_has(entries, k);
            }
            assert forall|x: int, y: int| 0 <= x < y < list@.len() implies text::before(
                #[trigger] list@[x].alias@,
                #[trigger] list@[y].alias@,
            ) by {
                assert(text::before(entries[x].alias@, entries[y].alias@));
            }
            assert forall|a: Seq<char>| #[trigger] self@.accounts.contains_key(a) implies exists|
                k: int,
            | 0 <= k < list@.len() && (#[trigger] list@[k]).alias@ == a by {
                let k = lemma_collected_index(entries, a);
                assert(list@[k].alias@ == a);
            }
        }
        list
    }

    /// Retrieve the configured default account alias, if any.
    pub fn default_alias(&self) -> (alias: Option<String>)
        ensures
            alias.deep_view() == self@.default_account,
    {
        self.state.default_account.clone()
    }

    /// Update default account alias.
    pub fn set_default(&mut self, alias: &str) -> (outcome: Result<(), AccountStoreError>)
        requires
            old(self).wf(),
        ensures
            final(self).wf(),
            final(self).root() == old(self).root(),
            if old(self)@.accounts.contains_key(alias@) {
                outcome is Ok && final(self)@ == old(self)@.with_default(alias@)
            } else {
                &&& outcome matches Err(AccountStoreError::AccountNotFound(a))
                &&& a@ == alias@
                &&& *final(self) == *old(self)
            },
    {
        let (at, found) = self.state.position(alias);
        if !found {
            return Err(AccountStoreError::AccountNotFound(alias.to_owned()));
        }
        self.state.default_account = Some(alias.to_owned());
        Ok(())
    }

    /// Remove an account. The key file that is returned has to be deleted along with it.
    pub fn remove_account(&mut self, alias: &str) -> (outcome: Result<Location, AccountStoreError>)
        requires
            old(self).wf(),
        ensures
            final(self).wf(),
            final(self).root() == old(self).root(),
            if old(self)@.accounts.contains_key(alias@) {
                &&& outcome matches Ok(key)
                &&& key.is(old(self).root(), seq!["accounts"@, alias@ + ".key"@])
                &&& final(self)@ == old(self)@.without_account(alias@)
            } else {
                &&& outcome matches Err(AccountStoreError::AccountNotFound(a))
                &&& a@ == alias@
                &&& *final(self) == *old(self)
            },
    {
        let (at, found) = self.state.position(alias);
        if !found {
            return Err(AccountStoreError::AccountNotFound(alias.to_owned()));
        }
        let was_default = self.is_default_alias(alias);
        proof {
            lemma_collected_remove(self.state.accounts@, at as int);
            lemma_first(self.state.accounts@.remove(at as int));
        }
        let dropped = self.state.accounts.remove(at);
        if was_default {
            self.state.default_account = if self.state.accounts.len() > 0 {
                Some(self.state.accounts[0].alias.clone())
            } else {
                None
            };
        }
        assert(self@ =~= old(self)@.without_account(alias@));
        Ok(self.secret_path(alias))
    }

    /// What comes of deleting a key file, given what the attempt found: one that is missing already
    /// is fine.
    pub fn delete_secret(found: FileRead<()>) -> (outcome: Result<(), AccountStoreError>)
        ensures
            match found {
                FileRead::Failed(failure) => outcome == Err::<(), _>(AccountStoreError::Io(failure)),
                _ => outcome is Ok,
            },
    {
        match found {
            FileRead::Failed(failure) => Err(AccountStoreError::Io(failure)),
            _ => Ok(()),
        }
    }

    /// Set or clear the daily request budget of an account.
    pub fn set_daily_budget(&mut self, alias: &str, budget: Option<NonZeroU32>) -> (outcome: Result<
        (),
        AccountStoreError,
    >)
        requires
            old(self).wf(),
        ensures
            final(self).wf(),
            final(self).root() == old(self).root(),
            if old(self)@.accounts.contains_key(alias@) {
                outcome is Ok && final(self)@ == old(self)@.with_budget(
                    alias@,
                    nonzero::plain(budget),
                )
            } else {
                &&& outcome matches Err(AccountStoreError::AccountNotFound(a))
                &&& a@ == alias@
                &&& *final(self) == *old(self)
            },
    {
        let (at, found) = self.state.position(alias);
        if !found {
            return Err(AccountStoreError::AccountNotFound(alias.to_owned()));
        }
        proof {
            lemma_collected_has(self.state.accounts@, at as int);
        }
        let profile = self.state.accounts[at].profile.clone();
        self.state.put(AccountEntry { alias: alias.to_owned(), profile, daily_budget: budget });
        assert(self@ =~= old(self)@.with_budget(alias@, nonzero::plain(budget)));
        Ok(())
    }

    /// Export account metadata without secrets.
    pub fn export_accounts(&self) -> (list: Vec<AccountExport>)
        requires
            self.wf(),
        ensures
            exports(self@, list@),
    {
        let summaries = self.list_accounts();
        let mut list: Vec<AccountExport> = Vec::new();
        let mut i: usize = 0;
        while i < summaries.len()
            invariant
                i <= summaries@.len(),
                list@.len() == i,
                forall|k: int|
                    #![trigger list@[k]]
                    0 <= k < i ==> list@[k].alias == summaries@[k].alias && list@[k].details()
                        == summaries@[k].details() && list@[k].is_default
                        == summaries@[k].is_default,
            decreases summaries@.len() - i,
        {
            let summary = &summaries[i];
            list.push(
                AccountExport {
                    alias: summary.alias.clone(),
                    is_default: summary.is_default,
                    label: summary.profile.label.clone(),
                    email: summary.profile.email.clone(),
                    description: summary.profile.description.clone(),
                    daily_budget: nonzero::get_plain(summary.daily_budget),
                },
            );
            i = i + 1;
        }
        proof {
            assert forall|x: int, y: int| 0 <= x < y < list@.len() implies text::before(
                #[trigger] list@[x].alias@,
                #[trigger] list@[y].alias@,
            ) by {
                assert(text::before(summaries@[x].alias@, summaries@[y].alias@));
            }
            assert forall|a: Seq<char>| #[trigger] self@.accounts.contains_key(a) implies exists|
                k: int,
            | 0 <= k < list@.len() && (#[trigger] list@[k]).alias@ == a by {
                let k = choose|k: int|
                    0 <= k < summaries@.len() && (#[trigger] summaries@[k]).alias@ == a;
                assert(list@[k].alias@ == a);
            }
        }
        list
    }
}

/// Among finitely many accounts one is the alphabetically first.
proof fn lemma_first_exists(accounts: Map<Seq<char>, DetailsView>) -> (first: Seq<char>)
    requires
        accounts.dom().finite(),
        exists|a: Seq<char>| accounts.contains_key(a),
    ensures
        accounts.contains_key(first),
        forall|b: Seq<char>| accounts.contains_key(b) && b != first ==> text::before(first, b),
    decreases accounts.dom().len(),
{
    let a = choose|a: Seq<char>| accounts.contains_key(a);
    let rest = accounts.remove(a);
    if exists|b: Seq<char>| rest.contains_key(b) {
        let other = lemma_first_exists(rest);
        text::lemma_before_total(a, other);
        if text::before(a, other) {
            assert forall|b: Seq<char>| accounts.contains_key(b) && b != a implies text::before(
                a,
                b,
            ) by {
                assert(rest.contains_key(b));
                if b != other {
                    text::lemma_before_transitive(a, other, b);
                }
            }
            a
        } else {
            assert forall|b: Seq<char>| accounts.contains_key(b) && b != other implies text::before(
                other,
                b,
            ) by {
                if b != a {
                    assert(rest.contains_key(b));
                }
            }
            other
        }
    } else {
        assert forall|b: Seq<char>| accounts.contains_key(b) && b != a implies text::before(a, b) by {
            assert(rest.contains_key(b));
        }
        a
    }
}

/// What a first alias is: an account that comes before all others, if there are accounts.
proof fn lemma_first_alias(accounts: Map<Seq<char>, DetailsView>)
    requires
        accounts.dom().finite(),
    ensures
        match first_alias(accounts) {
            Some(first) => accounts.contains_key(first) && forall|b: Seq<char>|
                accounts.contains_key(b) && b != first ==> text::before(first, b),
            None => accounts =~= Map::empty(),
        },
{
    if exists|a: Seq<char>| accounts.contains_key(a) {
        let first = lemma_first_exists(accounts);
        assert(accounts.contains_key(first));
    } else {
        assert forall|a: Seq<char>| !(#[trigger] accounts.dom().contains(a)) by {
            assert(!accounts.contains_key(a));
        }
        assert(accounts =~= Map::empty());
    }
}

/// The default always is an account of the store, and a store with accounts always has one:
/// adding, removing, choosing a default and setting a budget all keep it so.
pub proof fn law_default_is_an_account(
    state: StateView,
    alias: Seq<char>,
    profile: ProfileView,
    budget: Option<u32>,
)
    requires
        state.coherent(),
    ensures
        state.with_account(alias, profile).coherent(),
        state.without_account(alias).coherent(),
        state.accounts.contains_key(alias) ==> state.with_default(alias).coherent(),
        state.accounts.contains_key(alias) ==> state.with_budget(alias, budget).coherent(),
{
    lemma_first_alias(state.accounts.remove(alias));
    if state.default_account is None {
        assert(state.accounts.remove(alias) =~= Map::empty());
    }
}

/// Removing the default account hands the role to the alphabetically first of the others;
/// removing another account leaves the default alone.
pub proof fn law_removal_moves_default(state: StateView, alias: Seq<char>)
    requires
        state.coherent(),
    ensures
        state.default_account != Some(alias) ==> state.without_account(alias).default_account
            == state.default_account,
        state.default_account == Some(alias) ==> match state.without_account(
            alias,
        ).default_account {
            Some(next) => {
                &&& next != alias
                &&& state.accounts.contains_key(next)
                &&& forall|b: Seq<char>|
                    state.accounts.contains_key(b) && b != alias && b != next ==> text::before(
                        next,
                        b,
                    )
            },
            None => forall|b: Seq<char>| state.accounts.contains_key(b) ==> b == alias,
        },
{
    let rest = state.accounts.remove(alias);
    lemma_first_alias(rest);
    assert forall|b: Seq<char>| state.accounts.contains_key(b) && b != alias implies
        rest.contains_key(b) by {}
}

/// Removing an account right after it was added leaves the store as it was.
pub proof fn law_removal_undoes_addition(state: StateView, alias: Seq<char>, profile: ProfileView)
    requires
        state.coherent(),
        !state.accounts.contains_key(alias),
    ensures
        state.with_account(alias, profile).without_account(alias) == state,
{
    let there = state.with_account(alias, profile);
    let back = there.without_account(alias);
    assert(there.accounts.remove(alias) =~= state.accounts);
    lemma_first_alias(state.accounts);
    if state.default_account is None {
        assert(first_alias(state.accounts) is None) by {
            if first_alias(state.accounts) is Some {
                assert(state.accounts.contains_key(first_alias(state.accounts).unwrap()));
            }
        }
    }
    assert(back =~= state);
}

/// An operation on one account leaves what is known of every other account unchanged.
pub proof fn law_other_accounts_are_kept(
    state: StateView,
    alias: Seq<char>,
    profile: ProfileView,
    budget: Option<u32>,
    other: Seq<char>,
)
    requires
        other != alias,
        state.accounts.contains_key(other),
    ensures
        state.with_account(alias, profile).accounts.contains_key(other),
        state.with_account(alias, profile).accounts[other] == state.accounts[other],
        state.without_account(alias).accounts.contains_key(other),
        state.without_account(alias).accounts[other] == state.accounts[other],
        state.with_default(alias).accounts == state.accounts,
        state.with_budget(alias, budget).accounts.contains_key(other),
        state.with_budget(alias, budget).accounts[other] == state.accounts[other],
{
}

/// What is read of an account that was just added is what was written: its profile without a
/// budget, and, from a key file that holds what was to be stored, its key without surrounding
/// white space. It is the default if it is the first account or the default already named it.
pub proof fn law_added_account_reads_back(
    state: StateView,
    alias: Seq<char>,
    profile: ProfileView,
    api_key: Seq<char>,
)
    ensures
        state.with_account(alias, profile).record(alias, api_key) == Some(
            RecordView {
                alias,
                api_key: text::trimmed(api_key),
                profile,
                is_default: state.default_account is None || is_default(state, alias),
                daily_budget: None,
            },
        ),
{
}

/// A default that was chosen and a budget that was set are read back, and nothing else of the account
/// changes.
pub proof fn law_settings_read_back(
    state: StateView,
    alias: Seq<char>,
    budget: Option<u32>,
    key: Seq<char>,
)
    requires
        state.accounts.contains_key(alias),
    ensures
        state.with_default(alias).record(alias, key) == Some(
            RecordView { is_default: true, ..state.record(alias, key)->Some_0 },
        ),
        state.with_budget(alias, budget).record(alias, key) == Some(
            RecordView { daily_budget: budget, ..state.record(alias, key)->Some_0 },
        ),
{
}

/// Storing a key without the white space around it changes nothing in what is read.
pub proof fn law_white_space_around_keys_is_immaterial(
    state: StateView,
    alias: Seq<char>,
    key: Seq<char>,
)
    ensures
        state.record(alias, text::trimmed(key)) == state.record(alias, key),
{
    text::lemma_trimmed_again(key);
}

/// A removed account can no longer be read.
pub proof fn law_removed_account_is_gone(state: StateView, alias: Seq<char>, key: Seq<char>)
    ensures
        state.without_account(alias).record(alias, key) is None,
{
}

/// A store with accounts shows exactly one of them as the default.
pub proof fn law_one_default_is_listed(state: StateView, list: Seq<AccountSummary>) -> (at: int)
    requires
        state.coherent(),
        lists(state, list),
        list.len() > 0,
    ensures
        0 <= at < list.len(),
        list[at].is_default,
        forall|i: int| #![trigger list[i]] 0 <= i < list.len() && list[i].is_default ==> i == at,
{
    assert(state.accounts.contains_key(list[0].alias@));
    let default = state.default_account.unwrap();
    assert(state.accounts.contains_key(default));
    let at = choose|i: int| 0 <= i < list.len() && (#[trigger] list[i]).alias@ == default;
    assert forall|i: int| #![trigger list[i]] 0 <= i < list.len() && list[i].is_default implies i
        == at by {
        text::lemma_before_irreflexive(default);
        if i < at {
            assert(text::before(list[i].alias@, list[at].alias@));
        } else if i > at {
            assert(text::before(list[at].alias@, list[i].alias@));
        }
    }
    at
}

/// The key file of an alias that is accepted lies directly in the accounts directory: its name
/// holds no path separator. Different aliases have different key files.
pub proof fn law_key_files_stay_apart(alias: Seq<char>, other: Seq<char>)
    requires
        alias_fault(alias) is None,
    ensures
        !text::has_char(alias + ".key"@, '/'),
        !text::has_char(alias + ".key"@, '\\'),
        alias != other ==> alias + ".key"@ != other + ".key"@,
{
    reveal_strlit(".key");
    let name = alias + ".key"@;
    assert forall|i: int| 0 <= i < name.len() implies #[trigger] name[i] != '/' && name[i] != '\\' by {
        if i < alias.len() {
            assert(name[i] == alias[i]);
        }
    }
    if name == other + ".key"@ {
        assert(alias =~= name.take(name.len() - 4));
        assert(other =~= (other + ".key"@).take(name.len() - 4));
    }
}

/// An account is read as the default if and only if it is the default of the store, and what is read
/// of it besides its key is what the store has of it.
pub proof fn law_record_is_what_the_store_has(state: StateView, alias: Seq<char>, key: Seq<char>)
    ensures
        state.record(alias, key) is Some <==> state.accounts.contains_key(alias),
        state.record(alias, key) matches Some(record) ==> {
            &&& record.alias == alias
            &&& record.api_key == text::trimmed(key)
            &&& record.profile == state.accounts[alias].profile
            &&& record.daily_budget == state.accounts[alias].daily_budget
            &&& record.is_default <==> state.default_account == Some(alias)
        },
{
}

/// Adding an account makes it the default only if there was none, removing one leaves only that one
/// out, choosing a default changes nothing else, and setting a budget changes nothing else.
pub proof fn law_operations_change_one_account(
    state: StateView,
    alias: Seq<char>,
    profile: ProfileView,
    budget: Option<u32>,
    other: Seq<char>,
)
    ensures
        state.default_account is Some ==> state.with_account(alias, profile).default_account
            == state.default_account,
        state.default_account is None ==> state.with_account(alias, profile).default_account == Some(
            alias,
        ),
        state.with_account(alias, profile).accounts.contains_key(other) <==> other == alias
            || state.accounts.contains_key(other),
        state.with_account(alias, profile).accounts[alias].profile == profile,
        state.with_account(alias, profile).accounts[alias].daily_budget is None,
        state.without_account(alias).accounts.contains_key(other) <==> other != alias
            && state.accounts.contains_key(other),
        state.with_default(alias).default_account == Some(alias),
        state.with_default(alias).accounts == state.accounts,
        state.with_budget(alias, budget).default_account == state.default_account,
        state.with_budget(alias, budget).accounts.contains_key(other) <==> other == alias
            || state.accounts.contains_key(other),
        state.with_budget(alias, budget).accounts[alias].daily_budget == budget,
        state.with_budget(alias, budget).accounts[alias].profile == state.accounts[alias].profile,
{
}

/// An alias is refused if and only if it is blank, holds a slash or a backslash, or holds two dots in
/// a row, and the reason tells which of these it is, in this order.
pub proof fn law_alias_is_refused_for_a_reason(alias: Seq<char>)
    ensures
        text::blank(alias) ==> alias_fault(alias) == Some("alias cannot be empty"@),
        !text::blank(alias) && (exists|i: int|
            0 <= i < alias.len() && (#[trigger] alias[i] == '/' || alias[i] == '\\'))
            ==> alias_fault(alias) == Some("alias may not contain path separators"@),
        !text::blank(alias) && (forall|i: int|
            0 <= i < alias.len() ==> #[trigger] alias[i] != '/' && alias[i] != '\\') && (exists|
            i: int,
        |
            0 <= i < alias.len() - 1 && #[trigger] alias[i] == '.' && alias[i + 1] == '.')
            ==> alias_fault(alias) == Some("alias may not contain parent directory segments"@),
        !text::blank(alias) && (forall|i: int|
            0 <= i < alias.len() ==> #[trigger] alias[i] != '/' && alias[i] != '\\') && (forall|
            i: int,
        |
            0 <= i < alias.len() - 1 ==> !(#[trigger] alias[i] == '.' && alias[i + 1] == '.'))
            ==> alias_fault(alias) is None,
{
    text::lemma_trimmed_empty(alias);
}

/// A list of accounts tells of each account what the store has of it: its label, e-mail address,
/// description and budget, and whether it is the default. No account is missing, and none is listed
/// twice.
pub proof fn law_lists_tell_what_the_store_has(
    state: StateView,
    list: Seq<AccountSummary>,
    i: int,
    j: int,
)
    requires
        lists(state, list),
        0 <= i < list.len(),
        0 <= j < list.len(),
    ensures
        ({
            let known = state.accounts[list[i].alias@];
            &&& state.accounts.contains_key(list[i].alias@)
            &&& list[i].profile.label.deep_view() == known.profile.label
            &&& list[i].profile.email.deep_view() == known.profile.email
            &&& list[i].profile.description.deep_view() == known.profile.description
            &&& match list[i].daily_budget {
                Some(n) => known.daily_budget == Some(n@),
                None => known.daily_budget is None,
            }
            &&& list[i].is_default <==> state.default_account == Some(list[i].alias@)
        }),
        forall|a: Seq<char>| #[trigger]
            state.accounts.contains_key(a) ==> exists|k: int|
                0 <= k < list.len() && (#[trigger] list[k]).alias@ == a,
        list[i].alias@ == list[j].alias@ ==> i == j,
        i < j ==> text::before(list[i].alias@, list[j].alias@),
{
    text::lemma_before_irreflexive(list[i].alias@);
    if i < j {
        assert(text::before(list[i].alias@, list[j].alias@));
    }
    if j < i {
        assert(text::before(list[j].alias@, list[i].alias@));
    }
}

/// An export tells of each account what the store has of it, as a list does.
pub proof fn law_exports_tell_what_the_store_has(
    state: StateView,
    list: Seq<AccountExport>,
    i: int,
    j: int,
)
    requires
        exports(state, list),
        0 <= i < list.len(),
        0 <= j < list.len(),
    ensures
        ({
            let known = state.accounts[list[i].alias@];
            &&& state.accounts.contains_key(list[i].alias@)
            &&& list[i].label.deep_view() == known.profile.label
            &&& list[i].email.deep_view() == known.profile.email
            &&& list[i].description.deep_view() == known.profile.description
            &&& list[i].daily_budget == known.daily_budget
            &&& list[i].is_default <==> state.default_account == Some(list[i].alias@)
        }),
        forall|a: Seq<char>| #[trigger]
            state.accounts.contains_key(a) ==> exists|k: int|
                0 <= k < list.len() && (#[trigger] list[k]).alias@ == a,
        list[i].alias@ == list[j].alias@ ==> i == j,
        i < j ==> text::before(list[i].alias@, list[j].alias@),
{
    text::lemma_before_irreflexive(list[i].alias@);
    if i < j {
        assert(text::before(list[i].alias@, list[j].alias@));
    }
    if j < i {
        assert(text::before(list[j].alias@, list[i].alias@));
    }
}

/// Of two entries with the same alias the later one counts, and an entry tells nothing of any other
/// alias.
pub proof fn law_later_entries_count(
    entries: Seq<AccountEntry>,
    entry: AccountEntry,
    other: Seq<char>,
)
    ensures
        collected(Seq::empty()) == Map::<Seq<char>, DetailsView>::empty(),
        ({
            let more = collected(entries.push(entry));
            &&& more.contains_key(entry.alias@)
            &&& more[entry.alias@].profile.label == entry.profile.label.deep_view()
            &&& more[entry.alias@].profile.email == entry.profile.email.deep_view()
            &&& more[entry.alias@].profile.description == entry.profile.description.deep_view()
            &&& match entry.daily_budget {
                Some(n) => more[entry.alias@].daily_budget == Some(n@),
                None => more[entry.alias@].daily_budget is None,
            }
            &&& other != entry.alias@ ==> {
                &&& more.contains_key(other) <==> collected(entries).contains_key(other)
                &&& more.contains_key(other) ==> more[other] == collected(entries)[other]
            }
        }),
{
    assert(entries.push(entry).drop_last() =~= entries);
}

/// A message says what went wrong, and with which alias, file or cause.
pub proof fn law_store_messages_tell_the_details(detail: String, failure: IoFailure)
    ensures
        AccountStoreError::Io(failure).text() == "I/O error at "@ + failure.path@,
        AccountStoreError::Deserialize(detail).text() == "failed to parse accounts file: "@
            + detail@,
        AccountStoreError::Serialize(detail).text() == "failed to serialise accounts file: "@
            + detail@,
        AccountStoreError::DuplicateAlias(detail).text() == "account alias already exists: "@
            + detail@,
        AccountStoreError::InvalidAlias(detail).text() == "account alias is invalid: "@ + detail@,
        AccountStoreError::AccountNotFound(detail).text() == "account not found: "@ + detail@,
        AccountStoreError::EmptyApiKey.text() == "API key cannot be empty"@,
{
}

/// A missing or blank accounts file stands for an empty store, one that cannot be read is an error,
/// and any other is parsed as it is.
pub proof fn law_missing_store_is_empty(
    source: Result<StateSource, AccountStoreError>,
    read: FileRead<String>,
)
    requires
        AccountStore::reads(source, read),
    ensures
        read is Missing ==> (source matches Ok(state) && state is Fresh),
        read matches FileRead::Found(contents) ==> {
            &&& text::blank(contents@) ==> (source matches Ok(state) && state is Fresh)
            &&& !text::blank(contents@) ==> (source matches Ok(StateSource::Parse(t)) && t
                == contents)
        },
        read matches FileRead::Failed(failure) ==> (source matches Err(AccountStoreError::Io(f))
            && f == failure),
{
    if let FileRead::Found(contents) = read {
        text::lemma_trimmed_empty(contents@);
    }
}

} // verus!
