//! Commands on stored accounts.

use super::events;
use super::{AccountsCommand, AddAccountArgs, SetBudgetArgs};
use crate::config::accounts as stored;
use crate::config::accounts::{
    AccountProfile, AccountStore, AccountStoreError, AccountSummary, SecretWrite,
};
use crate::config::Location;
use crate::json;
use crate::json::{object_of, push_member, push_text, single, Datum};
use crate::nonzero;
use crate::nonzero::NonZeroU32;
use crate::output;
use crate::output::lists;
use crate::output::{
    number_value, print_account_export, render_account_list, tell, Output, OutputFormat,
};
use crate::text;
use crate::Error;
use serde_json::Value;
use vstd::prelude::*;
use vstd::string::*;

verus! {

/// What is to be done with the files of the store.
#[derive(Debug)]
pub enum StoreEffect {
    /// Nothing.
    Keep,
    /// Store the state.
    Save,
    /// Store the state, and the key of the new account.
    SaveWithKey(SecretWrite),
    /// Store the state, and delete the key file of the account that is gone.
    SaveWithoutKey(Location),
}

/// What a command on accounts prints, and what it does to the files of the store.
#[derive(Debug)]
pub struct AccountsOutcome {
    pub output: Output,
    pub effect: StoreEffect,
}

/// The budget that a command sets: none if it says so, or if it names none or zero.
pub open spec fn budget_wanted(args: SetBudgetArgs) -> Option<u32> {
    match args.daily {
        Some(n) if n > 0 && !args.clear => Some(n),
        _ => None,
    }
}

/// Chooses the budget that a command sets: none if it says so, or if it names none or zero. Naming
/// one and clearing it at once is refused.
pub fn choose_budget(args: &SetBudgetArgs) -> (outcome: Result<Option<NonZeroU32>, Error>)
    ensures
        if args.clear && args.daily is Some {
            outcome matches Err(e) && events::invalid(
                e,
                "use either --daily or --clear when configuring budgets"@,
            )
        } else {
            outcome matches Ok(budget) && nonzero::plain(budget) == budget_wanted(*args)
        },
{
    if args.clear && args.daily.is_some() {
        return Err(
            Error::InvalidInput(
                "use either --daily or --clear when configuring budgets".to_owned(),
            ),
        );
    }
    match args.daily {
        Some(n) => Ok(NonZeroU32::new(n)),
        None => Ok(None),
    }
}

/// A sentence about an account.
pub open spec fn sentence(before: Seq<char>, alias: Seq<char>, after: Seq<char>) -> Seq<char> {
    before + alias + after
}

fn sentence_text(before: &str, alias: &str, after: &str) -> (text: String)
    ensures
        text@ == sentence(before@, alias@, after@),
{
    before.to_owned().concat(alias).concat(after)
}

/// What was done to an account, as a document.
pub open spec fn deed(alias: Seq<char>, done: Seq<char>) -> json::Json {
    json::object(seq![("alias"@, json::Json::Text(alias)), (done, json::Json::Bool(true))])
}

fn deed_value(alias: &str, done: &str) -> (value: Value)
    ensures
        json::content(value) == deed(alias@, done@),
{
    let mut list: Vec<(String, Value)> = Vec::new();
    push_text(&mut list, "alias", alias);
    push_member(&mut list, done, single(Datum::Bool(true)));
    assert(json::member_contents(list@) =~= seq![
        ("alias"@, json::Json::Text(alias@)),
        (done@, json::Json::Bool(true)),
    ]);
    object_of(list)
}

/// Whether an outcome refuses a command because what it would print has no notation.
pub open spec fn unprintable(outcome: Result<AccountsOutcome, Error>, fault: Seq<char>) -> bool {
    outcome matches Err(Error::Serialization(m)) && m@ == fault
}

/// The profile that a new account gets.
pub open spec fn profile_of(args: AddAccountArgs) -> stored::ProfileView {
    stored::ProfileView {
        label: args.label.deep_view(),
        email: args.email.deep_view(),
        description: args.description.deep_view(),
    }
}

/// Whether an outcome refuses a command because an account is unknown.
pub open spec fn unknown(outcome: Result<AccountsOutcome, Error>, alias: Seq<char>) -> bool {
    outcome matches Err(Error::Accounts(AccountStoreError::AccountNotFound(a))) && a@ == alias
}

/// What is told of an account that was added.
pub open spec fn told_added(format: OutputFormat, alias: Seq<char>) -> Result<
    Seq<char>,
    Seq<char>,
> {
    output::told(format, sentence("Added account '"@, alias, "'."@), deed(alias, "added"@))
}

/// Whether the addition of an account came out as it should, in a store that was `before` and is
/// `after`.
pub open spec fn adds(
    args: AddAccountArgs,
    root: std::path::PathBuf,
    before: stored::StateView,
    after: stored::StateView,
    format: OutputFormat,
    outcome: Result<AccountsOutcome, Error>,
) -> bool {
    match told_added(format, args.alias@) {
        Err(fault) => unprintable(outcome, fault),
        Ok(told) => match stored::alias_fault(args.alias@) {
            Some(fault) => outcome matches Err(Error::Accounts(AccountStoreError::InvalidAlias(m)))
                && m@ == fault,
            None => if text::trimmed(args.api_key@).len() == 0 {
                outcome matches Err(Error::Accounts(AccountStoreError::EmptyApiKey))
            } else if before.accounts.contains_key(args.alias@) {
                outcome matches Err(Error::Accounts(AccountStoreError::DuplicateAlias(a))) && a@
                    == args.alias@
            } else {
                &&& outcome matches Ok(done)
                &&& done.output.says(told)
                &&& done.effect matches StoreEffect::SaveWithKey(key)
                &&& key.path.is(root, seq!["accounts"@, args.alias@ + ".key"@])
                &&& key.contents@ == args.api_key@
                &&& after == before.with_account(args.alias@, profile_of(args))
            },
        },
    }
}

fn add_stored(store: &mut AccountStore, args: &AddAccountArgs, format: OutputFormat) -> (outcome:
    Result<AccountsOutcome, Error>)
    requires
        old(store).wf(),
    ensures
        final(store).wf(),
        final(store).root() == old(store).root(),
        adds(*args, old(store).root(), old(store)@, final(store)@, format, outcome),
        outcome is Err ==> *final(store) == *old(store),
{
    let alias = args.alias.as_str();
    let sentence = sentence_text("Added account '", alias, "'.");
    let output = match tell(format, sentence, &deed_value(alias, "added")) {
        Ok(output) => output,
        Err(e) => {
            return Err(e);
        },
    };
    let profile = AccountProfile {
        label: args.label.clone(),
        email: args.email.clone(),
        description: args.description.clone(),
    };
    match store.add_account(alias, args.api_key.as_str(), profile) {
        Ok(key) => Ok(AccountsOutcome { output, effect: StoreEffect::SaveWithKey(key) }),
        Err(e) => Err(Error::Accounts(e)),
    }
}

/// What is told of an account that became the default.
pub open spec fn told_default(format: OutputFormat, alias: Seq<char>) -> Result<
    Seq<char>,
    Seq<char>,
> {
    output::told(
        format,
        sentence("Set '"@, alias, "' as the default account."@),
        deed(alias, "default"@),
    )
}

/// Whether the choice of a default came out as it should.
pub open spec fn uses(
    alias: Seq<char>,
    before: stored::StateView,
    after: stored::StateView,
    format: OutputFormat,
    outcome: Result<AccountsOutcome, Error>,
) -> bool {
    match told_default(format, alias) {
        Err(fault) => unprintable(outcome, fault),
        Ok(told) => if before.accounts.contains_key(alias) {
            &&& outcome matches Ok(done)
            &&& done.output.says(told)
            &&& done.effect is Save
            &&& after == before.with_default(alias)
        } else {
            unknown(outcome, alias)
        },
    }
}

fn use_stored(store: &mut AccountStore, alias: &str, format: OutputFormat) -> (outcome: Result<
    AccountsOutcome,
    Error,
>)
    requires
        old(store).wf(),
    ensures
        final(store).wf(),
        final(store).root() == old(store).root(),
        uses(alias@, old(store)@, final(store)@, format, outcome),
        outcome is Err ==> *final(store) == *old(store),
{
    let sentence = sentence_text("Set '", alias, "' as the default account.");
    let output = match tell(format, sentence, &deed_value(alias, "default")) {
        Ok(output) => output,
        Err(e) => {
            return Err(e);
        },
    };
    match store.set_default(alias) {
        Ok(_) => Ok(AccountsOutcome { output, effect: StoreEffect::Save }),
        Err(e) => Err(Error::Accounts(e)),
    }
}

/// What is told of an account that was removed.
pub open spec fn told_removed(format: OutputFormat, alias: Seq<char>) -> Result<
    Seq<char>,
    Seq<char>,
> {
    output::told(format, sentence("Removed account '"@, alias, "'."@), deed(alias, "removed"@))
}

/// Whether the removal of an account came out as it should.
pub open spec fn removes(
    alias: Seq<char>,
    root: std::path::PathBuf,
    before: stored::StateView,
    after: stored::StateView,
    format: OutputFormat,
    outcome: Result<AccountsOutcome, Error>,
) -> bool {
    match told_removed(format, alias) {
        Err(fault) => unprintable(outcome, fault),
        Ok(told) => if before.accounts.contains_key(alias) {
            &&& outcome matches Ok(done)
            &&& done.output.says(told)
            &&& done.effect matches StoreEffect::SaveWithoutKey(key)
            &&& key.is(root, seq!["accounts"@, alias + ".key"@])
            &&& after == before.without_account(alias)
        } else {
            unknown(outcome, alias)
        },
    }
}

fn remove_stored(store: &mut AccountStore, alias: &str, format: OutputFormat) -> (outcome: Result<
    AccountsOutcome,
    Error,
>)
    requires
        old(store).wf(),
    ensures
        final(store).wf(),
        final(store).root() == old(store).root(),
        removes(alias@, old(store).root(), old(store)@, final(store)@, format, outcome),
        outcome is Err ==> *final(store) == *old(store),
{
    let sentence = sentence_text("Removed account '", alias, "'.");
    let output = match tell(format, sentence, &deed_value(alias, "removed")) {
        Ok(output) => output,
        Err(e) => {
            return Err(e);
        },
    };
    match store.remove_account(alias) {
        Ok(key) => Ok(AccountsOutcome { output, effect: StoreEffect::SaveWithoutKey(key) }),
        Err(e) => Err(Error::Accounts(e)),
    }
}

/// What is said of a budget that was set or cleared.
pub open spec fn budget_sentence(alias: Seq<char>, budget: Option<u32>) -> Seq<char> {
    match budget {
        Some(limit) => "Set daily budget for '"@ + alias + "' to "@ + text::decimal(limit as nat)
            + " requests."@,
        None => sentence("Cleared daily budget for '"@, alias, "'."@),
    }
}

/// The budget of an account, as a document.
pub open spec fn budget_document(alias: Seq<char>, budget: Option<u32>) -> json::Json {
    json::object(
        seq![
            ("alias"@, json::Json::Text(alias)),
            ("daily_budget"@, output::number_json(budget)),
        ],
    )
}

fn budget_value(alias: &str, budget: Option<u32>) -> (value: Value)
    ensures
        json::content(value) == budget_document(alias@, budget),
{
    let mut list: Vec<(String, Value)> = Vec::new();
    push_text(&mut list, "alias", alias);
    push_member(&mut list, "daily_budget", number_value(budget));
    assert(json::member_contents(list@) =~= seq![
        ("alias"@, json::Json::Text(alias@)),
        ("daily_budget"@, output::number_json(budget)),
    ]);
    object_of(list)
}

/// Whether setting a budget came out as it should.
pub open spec fn budgets(
    args: SetBudgetArgs,
    before: stored::StateView,
    after: stored::StateView,
    format: OutputFormat,
    outcome: Result<AccountsOutcome, Error>,
) -> bool {
    let budget = budget_wanted(args);
    if args.clear && args.daily is Some {
        outcome matches Err(e) && events::invalid(
            e,
            "use either --daily or --clear when configuring budgets"@,
        )
    } else {
        match output::told(
            format,
            budget_sentence(args.alias@, budget),
            budget_document(args.alias@, budget),
        ) {
            Err(fault) => unprintable(outcome, fault),
            Ok(told) => if before.accounts.contains_key(args.alias@) {
                &&& outcome matches Ok(done)
                &&& done.output.says(told)
                &&& done.effect is Save
                &&& after == before.with_budget(args.alias@, budget)
            } else {
                unknown(outcome, args.alias@)
            },
        }
    }
}

fn set_budget(store: &mut AccountStore, args: &SetBudgetArgs, format: OutputFormat) -> (outcome:
    Result<AccountsOutcome, Error>)
    requires
        old(store).wf(),
    ensures
        final(store).wf(),
        final(store).root() == old(store).root(),
        budgets(*args, old(store)@, final(store)@, format, outcome),
        outcome is Err ==> *final(store) == *old(store),
{
    let budget = match choose_budget(args) {
        Ok(budget) => budget,
        Err(e) => {
            return Err(e);
        },
    };
    let alias = args.alias.as_str();
    let plain = nonzero::get_plain(budget);
    let sentence = match plain {
        Some(limit) => "Set daily budget for '".to_owned().concat(alias).concat("' to ").concat(
            text::decimal_text(limit as u64).as_str(),
        ).concat(" requests."),
        None => sentence_text("Cleared daily budget for '", alias, "'."),
    };
    let output = match tell(format, sentence, &budget_value(alias, plain)) {
        Ok(output) => output,
        Err(e) => {
            return Err(e);
        },
    };
    match store.set_daily_budget(alias, budget) {
        Ok(_) => Ok(AccountsOutcome { output, effect: StoreEffect::Save }),
        Err(e) => Err(Error::Accounts(e)),
    }
}

/// Whether an outcome shows the accounts of a store.
pub open spec fn shows_list(
    state: stored::StateView,
    format: OutputFormat,
    outcome: Result<AccountsOutcome, Error>,
) -> bool {
    exists|list: Seq<AccountSummary>| #[trigger]
        stored::lists(state, list) && match output::told(
            format,
            output::table(lists::accounts_table(list)),
            lists::accounts_document(list),
        ) {
            Err(fault) => unprintable(outcome, fault),
            Ok(told) => {
                &&& outcome matches Ok(done)
                &&& done.output.says(told)
                &&& done.effect is Keep
            },
        }
}

/// How accounts are exported: for programs if that is asked for in either way.
pub open spec fn export_format(json: bool, format: OutputFormat) -> OutputFormat {
    if json {
        OutputFormat::Json
    } else {
        format
    }
}

/// Whether an outcome exports the accounts of a store.
pub open spec fn shows_export(
    state: stored::StateView,
    json: bool,
    format: OutputFormat,
    outcome: Result<AccountsOutcome, Error>,
) -> bool {
    exists|list: Seq<stored::AccountExport>| #[trigger]
        stored::exports(state, list) && match lists::told_exports(
            list,
            export_format(json, format),
        ) {
            Err(fault) => unprintable(outcome, fault),
            Ok(told) => {
                &&& outcome matches Ok(done)
                &&& done.output.says(told)
                &&& done.effect is Keep
            },
        }
}

/// Whether a command on accounts came out as it should, in a store that was `before` and is
/// `after`.
pub open spec fn handles(
    command: AccountsCommand,
    root: std::path::PathBuf,
    before: stored::StateView,
    after: stored::StateView,
    format: OutputFormat,
    outcome: Result<AccountsOutcome, Error>,
) -> bool {
    match command {
        AccountsCommand::List => shows_list(before, format, outcome),
        AccountsCommand::Add(args) => adds(args, root, before, after, format, outcome),
        AccountsCommand::Use { alias } => uses(alias@, before, after, format, outcome),
        AccountsCommand::Remove { alias } => removes(alias@, root, before, after, format, outcome),
        AccountsCommand::Export { json } => shows_export(before, json, format, outcome),
        AccountsCommand::Budget(args) => budgets(args, before, after, format, outcome),
    }
}

/// Carries out a command on accounts. A command that is refused leaves the store as it was.
pub fn handle_account_command(
    store: &mut AccountStore,
    command: &AccountsCommand,
    format: OutputFormat,
) -> (outcome: Result<AccountsOutcome, Error>)
    requires
        old(store).wf(),
    ensures
        final(store).wf(),
        final(store).root() == old(store).root(),
        handles(*command, old(store).root(), old(store)@, final(store)@, format, outcome),
        outcome is Err ==> *final(store) == *old(store),
        outcome matches Ok(done) && done.effect is Keep ==> *final(store) == *old(store),
{
    match command {
        AccountsCommand::List => {
            let list = store.list_accounts();
            match render_account_list(&list, format) {
                Ok(output) => Ok(AccountsOutcome { output, effect: StoreEffect::Keep }),
                Err(e) => Err(e),
            }
        },
        AccountsCommand::Add(args) => add_stored(store, args, format),
        AccountsCommand::Use { alias } => use_stored(store, alias.as_str(), format),
        AccountsCommand::Remove { alias } => remove_stored(store, alias.as_str(), format),
        AccountsCommand::Export { json } => {
            let list = store.export_accounts();
            let shape = if *json {
                OutputFormat::Json
            } else {
                format
            };
            match print_account_export(&list, shape) {
                Ok(output) => Ok(AccountsOutcome { output, effect: StoreEffect::Keep }),
                Err(e) => Err(e),
            }
        },
        AccountsCommand::Budget(args) => set_budget(store, args, format),
    }
}

/// Where programs read the output, every command on accounts that succeeds prints one JSON
/// document.
pub proof fn law_json_accounts_print_json(
    command: AccountsCommand,
    root: std::path::PathBuf,
    before: stored::StateView,
    after: stored::StateView,
    outcome: Result<AccountsOutcome, Error>,
)
    requires
        handles(command, root, before, after, OutputFormat::Json, outcome),
    ensures
        outcome matches Ok(done) ==> done.output.is_json(),
{
}

/// Whether what a command prints, if anything can be printed, is a sentence for people, and for
/// programs the notation of a document that names the account.
pub open spec fn reports(
    output: Output,
    format: OutputFormat,
    sentence: Seq<char>,
    alias: Seq<char>,
    name: Seq<char>,
    value: json::Json,
) -> bool {
    &&& output matches Output::Text(t)
    &&& format == OutputFormat::Human ==> t@ == sentence
    &&& format == OutputFormat::Json ==> exists|document: json::Json|
        {
            &&& #[trigger] json::pretty(document) == Ok::<Seq<char>, Seq<char>>(t@)
            &&& json::has(document, "alias"@, json::Json::Text(alias))
            &&& json::has(document, name, value)
        }
}

/// What programs are told of an account names it and what was done to it.
pub proof fn law_documents_name_the_account(
    alias: Seq<char>,
    done: Seq<char>,
    budget: Option<u32>,
)
    requires
        done != "alias"@,
    ensures
        json::has(deed(alias, done), "alias"@, json::Json::Text(alias)),
        json::has(deed(alias, done), done, json::Json::Bool(true)),
        json::has(budget_document(alias, budget), "alias"@, json::Json::Text(alias)),
        json::has(
            budget_document(alias, budget),
            "daily_budget"@,
            match budget {
                Some(n) => json::Json::Number(text::decimal(n as nat)),
                None => json::Json::Null,
            },
        ),
{
    reveal_strlit("alias");
    reveal_strlit("daily_budget");
    assert("alias"@.len() == 5 && "daily_budget"@.len() == 12);
    let told = seq![("alias"@, json::Json::Text(alias)), (done, json::Json::Bool(true))];
    assert(told[0].0 == "alias"@ && told[1].0 == done);
    json::law_object_has_its_members(told);
    let limit = seq![
        ("alias"@, json::Json::Text(alias)),
        ("daily_budget"@, output::number_json(budget)),
    ];
    assert(limit[0].0 == "alias"@ && limit[1].0 == "daily_budget"@);
    json::law_object_has_its_members(limit);
}

/// An account that is added is in the store afterwards, with the label, e-mail address and
/// description that were given and without a budget, and its key is written as it was given, to the
/// key file of its alias. It is the default only if there was none, and the others stay as they
/// were.
pub proof fn law_added_account_is_stored(
    args: AddAccountArgs,
    root: std::path::PathBuf,
    before: stored::StateView,
    after: stored::StateView,
    format: OutputFormat,
    done: AccountsOutcome,
    other: Seq<char>,
)
    requires
        handles(AccountsCommand::Add(args), root, before, after, format, Ok(done)),
    ensures
        !before.accounts.contains_key(args.alias@),
        stored::alias_fault(args.alias@) is None,
        !text::blank(args.api_key@),
        after.accounts.contains_key(args.alias@),
        after.accounts[args.alias@].profile.label == args.label.deep_view(),
        after.accounts[args.alias@].profile.email == args.email.deep_view(),
        after.accounts[args.alias@].profile.description == args.description.deep_view(),
        after.accounts[args.alias@].daily_budget is None,
        after.default_account == (match before.default_account {
            Some(alias) => Some(alias),
            None => Some(args.alias@),
        }),
        other != args.alias@ ==> {
            &&& after.accounts.contains_key(other) <==> before.accounts.contains_key(other)
            &&& after.accounts.contains_key(other) ==> after.accounts[other]
                == before.accounts[other]
        },
        done.effect matches StoreEffect::SaveWithKey(key) && key.contents@ == args.api_key@
            && key.path.is(root, seq!["accounts"@, args.alias@ + ".key"@]),
        reports(
            done.output,
            format,
            "Added account '"@ + args.alias@ + "'."@,
            args.alias@,
            "added"@,
            json::Json::Bool(true),
        ),
{
    reveal_strlit("alias");
    reveal_strlit("added");
    assert("alias"@[1] == 'l' && "added"@[1] == 'd');
    law_documents_name_the_account(args.alias@, "added"@, None);
    text::lemma_trimmed_empty(args.api_key@);
    let document = deed(args.alias@, "added"@);
    assert(json::has(document, "alias"@, json::Json::Text(args.alias@)));
}

/// An account is added if its alias is acceptable and not in use yet and its key is not blank, as far
/// as that can be printed; if not, it is refused for the first of these reasons.
pub proof fn law_addition_is_refused_for_a_reason(
    args: AddAccountArgs,
    root: std::path::PathBuf,
    before: stored::StateView,
    after: stored::StateView,
    outcome: Result<AccountsOutcome, Error>,
)
    requires
        handles(AccountsCommand::Add(args), root, before, after, OutputFormat::Human, outcome),
    ensures
        stored::alias_fault(args.alias@) matches Some(fault) ==> (outcome matches Err(
            Error::Accounts(AccountStoreError::InvalidAlias(m)),
        ) && m@ == fault),
        stored::alias_fault(args.alias@) is None && text::blank(args.api_key@)
            ==> outcome matches Err(Error::Accounts(AccountStoreError::EmptyApiKey)),
        stored::alias_fault(args.alias@) is None && !text::blank(args.api_key@)
            && before.accounts.contains_key(args.alias@) ==> (outcome matches Err(
            Error::Accounts(AccountStoreError::DuplicateAlias(a)),
        ) && a@ == args.alias@),
        stored::alias_fault(args.alias@) is None && !text::blank(args.api_key@)
            && !before.accounts.contains_key(args.alias@) ==> outcome is Ok,
{
    text::lemma_trimmed_empty(args.api_key@);
}

/// The account that is chosen is the default afterwards, and nothing else changes. Only an account of
/// the store can be chosen.
pub proof fn law_chosen_account_is_the_default(
    alias: String,
    root: std::path::PathBuf,
    before: stored::StateView,
    after: stored::StateView,
    format: OutputFormat,
    outcome: Result<AccountsOutcome, Error>,
)
    requires
        handles(AccountsCommand::Use { alias }, root, before, after, format, outcome),
    ensures
        outcome matches Ok(done) ==> {
            &&& before.accounts.contains_key(alias@)
            &&& after.default_account == Some(alias@)
            &&& after.accounts == before.accounts
            &&& done.effect is Save
            &&& reports(
                done.output,
                format,
                "Set '"@ + alias@ + "' as the default account."@,
                alias@,
                "default"@,
                json::Json::Bool(true),
            )
        },
        format == OutputFormat::Human ==> (outcome is Ok <==> before.accounts.contains_key(
            alias@,
        )),
        format == OutputFormat::Human && !before.accounts.contains_key(alias@) ==> (
        outcome matches Err(Error::Accounts(AccountStoreError::AccountNotFound(a))) && a@
            == alias@),
{
    reveal_strlit("alias");
    reveal_strlit("default");
    assert("alias"@.len() == 5 && "default"@.len() == 7);
    law_documents_name_the_account(alias@, "default"@, None);
    let document = deed(alias@, "default"@);
    assert(json::has(document, "alias"@, json::Json::Text(alias@)));
}

/// An account that is removed is gone afterwards, and its key file is deleted; the other accounts stay
/// as they were, and so does the default if it was another one. Only an account of the store can be
/// removed.
pub proof fn law_removed_account_leaves_the_store(
    alias: String,
    root: std::path::PathBuf,
    before: stored::StateView,
    after: stored::StateView,
    format: OutputFormat,
    outcome: Result<AccountsOutcome, Error>,
    other: Seq<char>,
)
    requires
        handles(AccountsCommand::Remove { alias }, root, before, after, format, outcome),
    ensures
        outcome matches Ok(done) ==> {
            &&& before.accounts.contains_key(alias@)
            &&& !after.accounts.contains_key(alias@)
            &&& other != alias@ ==> {
                &&& after.accounts.contains_key(other) <==> before.accounts.contains_key(other)
                &&& after.accounts.contains_key(other) ==> after.accounts[other]
                    == before.accounts[other]
            }
            &&& before.default_account != Some(alias@) ==> after.default_account
                == before.default_account
            &&& done.effect matches StoreEffect::SaveWithoutKey(key)
            &&& key.is(root, seq!["accounts"@, alias@ + ".key"@])
            &&& reports(
                done.output,
                format,
                "Removed account '"@ + alias@ + "'."@,
                alias@,
                "removed"@,
                json::Json::Bool(true),
            )
        },
        format == OutputFormat::Human ==> (outcome is Ok <==> before.accounts.contains_key(
            alias@,
        )),
        format == OutputFormat::Human && !before.accounts.contains_key(alias@) ==> (
        outcome matches Err(Error::Accounts(AccountStoreError::AccountNotFound(a))) && a@
            == alias@),
{
    reveal_strlit("alias");
    reveal_strlit("removed");
    assert("alias"@.len() == 5 && "removed"@.len() == 7);
    law_documents_name_the_account(alias@, "removed"@, None);
    let document = deed(alias@, "removed"@);
    assert(json::has(document, "alias"@, json::Json::Text(alias@)));
}

/// A budget that is set is the budget of the account afterwards, and one that is cleared, or set to
/// zero, or not named, leaves the account without one; nothing else changes. Naming a budget and
/// clearing it at once is refused.
pub proof fn law_budget_is_the_one_that_was_set(
    args: SetBudgetArgs,
    root: std::path::PathBuf,
    before: stored::StateView,
    after: stored::StateView,
    format: OutputFormat,
    outcome: Result<AccountsOutcome, Error>,
    other: Seq<char>,
)
    requires
        handles(AccountsCommand::Budget(args), root, before, after, format, outcome),
    ensures
        args.clear && args.daily is Some ==> (outcome matches Err(Error::InvalidInput(m)) && m@
            == "use either --daily or --clear when configuring budgets"@),
        outcome matches Ok(done) ==> {
            &&& !(args.clear && args.daily is Some)
            &&& before.accounts.contains_key(args.alias@)
            &&& after.accounts.contains_key(args.alias@)
            &&& after.accounts[args.alias@].profile == before.accounts[args.alias@].profile
            &&& after.default_account == before.default_account
            &&& other != args.alias@ ==> {
                &&& after.accounts.contains_key(other) <==> before.accounts.contains_key(other)
                &&& after.accounts.contains_key(other) ==> after.accounts[other]
                    == before.accounts[other]
            }
            &&& done.effect is Save
            &&& match args.daily {
                Some(n) if n > 0 => {
                    &&& after.accounts[args.alias@].daily_budget == Some(n)
                    &&& reports(
                        done.output,
                        format,
                        "Set daily budget for '"@ + args.alias@ + "' to "@ + text::decimal(
                            n as nat,
                        ) + " requests."@,
                        args.alias@,
                        "daily_budget"@,
                        json::Json::Number(text::decimal(n as nat)),
                    )
                },
                _ => {
                    &&& after.accounts[args.alias@].daily_budget is None
                    &&& reports(
                        done.output,
                        format,
                        "Cleared daily budget for '"@ + args.alias@ + "'."@,
                        args.alias@,
                        "daily_budget"@,
                        json::Json::Null,
                    )
                },
            }
        },
        format == OutputFormat::Human && !(args.clear && args.daily is Some) ==> {
            &&& outcome is Ok <==> before.accounts.contains_key(args.alias@)
            &&& !before.accounts.contains_key(args.alias@) ==> (outcome matches Err(
                Error::Accounts(AccountStoreError::AccountNotFound(a)),
            ) && a@ == args.alias@)
        },
{
    let budget = budget_wanted(args);
    reveal_strlit("alias");
    reveal_strlit("added");
    assert("alias"@[1] == 'l' && "added"@[1] == 'd');
    law_documents_name_the_account(args.alias@, "added"@, budget);
    let document = budget_document(args.alias@, budget);
    assert(json::has(document, "alias"@, json::Json::Text(args.alias@)));
}

/// Listing accounts changes no file, and shows people the table and programs the document of all
/// accounts of the store.
pub proof fn law_listing_shows_the_store(
    root: std::path::PathBuf,
    before: stored::StateView,
    after: stored::StateView,
    format: OutputFormat,
    done: AccountsOutcome,
) -> (list: Seq<AccountSummary>)
    requires
        handles(AccountsCommand::List, root, before, after, format, Ok(done)),
    ensures
        stored::lists(before, list),
        done.effect is Keep,
        done.output matches Output::Text(t) && {
            &&& format == OutputFormat::Human ==> t@ == output::table(lists::accounts_table(list))
            &&& format == OutputFormat::Json ==> json::pretty(lists::accounts_document(list))
                == Ok::<Seq<char>, Seq<char>>(t@)
        },
{
    choose|list: Seq<AccountSummary>| #[trigger]
        stored::lists(before, list) && match output::told(
            format,
            output::table(lists::accounts_table(list)),
            lists::accounts_document(list),
        ) {
            Err(fault) => unprintable(Ok(done), fault),
            Ok(told) => done.output.says(told) && done.effect is Keep,
        }
}

/// Exporting accounts changes no file, and writes records of all accounts of the store if JSON is
/// asked for in either way, and a table otherwise.
pub proof fn law_export_shows_the_store(
    json: bool,
    root: std::path::PathBuf,
    before: stored::StateView,
    after: stored::StateView,
    format: OutputFormat,
    done: AccountsOutcome,
) -> (list: Seq<stored::AccountExport>)
    requires
        handles(AccountsCommand::Export { json }, root, before, after, format, Ok(done)),
    ensures
        stored::exports(before, list),
        done.effect is Keep,
        done.output matches Output::Text(t) && {
            &&& json || format == OutputFormat::Json ==> json::pretty_records(
                lists::export_records(list),
            ) == Ok::<Seq<char>, Seq<char>>(t@)
            &&& !json && format == OutputFormat::Human ==> t@ == output::table(
                lists::exports_table(list),
            )
        },
{
    choose|list: Seq<stored::AccountExport>| #[trigger]
        stored::exports(before, list) && match lists::told_exports(
            list,
            export_format(json, format),
        ) {
            Err(fault) => unprintable(Ok(done), fault),
            Ok(told) => done.output.says(told) && done.effect is Keep,
        }
}

} // verus!
