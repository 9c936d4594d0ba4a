//! Accounts and the database that holds them.
use vstd::prelude::*;
use vstd::string::StrSliceExecFns;
use crate::primitives::is_lower_hex;
use crate::primitives::random_below;
use crate::primitives::sha256_hex;
use crate::primitives::sha256_hex_digest;
use crate::primitives::since_unix_epoch;

verus! {

/// What an account holds, as mathematical values.
pub struct AccountView {
    pub id: Seq<char>,
    pub username_or_email: Seq<char>,
    pub description: Option<Seq<char>>,
    pub password: Seq<char>,
}

/// The characters of an optional text.
pub open spec fn text_of(text: Option<String>) -> Option<Seq<char>> {
    match text {
        Some(s) => Some(s@),
        None => None,
    }
}

/// The decimal digit that stands for `d`, for `d < 10`.
pub open spec fn decimal_digit(d: nat) -> char {
    if d == 0 {
        '0'
    } else if d == 1 {
        '1'
    } else if d == 2 {
        '2'
    } else if d == 3 {
        '3'
    } else if d == 4 {
        '4'
    } else if d == 5 {
        '5'
    } else if d == 6 {
        '6'
    } else if d == 7 {
        '7'
    } else if d == 8 {
        '8'
    } else {
        '9'
    }
}

/// A number written in decimal, without leading zeros.
pub open spec fn decimal_text(n: nat) -> Seq<char>
    decreases n,
{
    if n < 10 {
        seq![decimal_digit(n)]
    } else {
        decimal_text(n / 10).push(decimal_digit(n % 10))
    }
}

/// Ten to the power of `k`.
pub open spec fn power_of_ten(k: nat) -> nat
    decreases k,
{
    if k == 0 {
        1
    } else {
        10 * power_of_ten((k - 1) as nat)
    }
}

/// A number below ten to the power of `k` is written with at most `k` digits.
pub proof fn decimal_text_is_short(n: nat, k: nat)
    requires
        k >= 1,
        n < power_of_ten(k),
    ensures
        1 <= decimal_text(n).len() <= k,
    decreases k,
{
    if n >= 10 {
        assert(power_of_ten(1) == 10) by {
            reveal_with_fuel(power_of_ten, 2);
        }
        decimal_text_is_short(n / 10, (k - 1) as nat);
    }
}

/// An account id is eight lowercase hexadecimal digits.
pub open spec fn is_account_id(id: Seq<char>) -> bool {
    &&& id.len() == 8
    &&& forall|i: int| 0 <= i < 8 ==> is_lower_hex(#[trigger] id[i])
}

/// The id that a moment (in seconds since the epoch) and a random number give: the
/// first eight digits of the digest of the two numbers written one after the other.
pub open spec fn id_of_seed(timestamp: u64, random: u32) -> Seq<char> {
    sha256_hex(decimal_text(timestamp as nat) + decimal_text(random as nat)).subrange(0, 8)
}

/// The decimal digit that stands for `d`.
fn digit_char(d: u64) -> (c: char)
    requires
        d < 10,
    ensures
        c == decimal_digit(d as nat),
{
    if d == 0 {
        '0'
    } else if d == 1 {
        '1'
    } else if d == 2 {
        '2'
    } else if d == 3 {
        '3'
    } else if d == 4 {
        '4'
    } else if d == 5 {
        '5'
    } else if d == 6 {
        '6'
    } else if d == 7 {
        '7'
    } else if d == 8 {
        '8'
    } else {
        '9'
    }
}

/// Appends `n` in decimal to `out`.
pub fn push_decimal(out: &mut String, n: u64)
    ensures
        final(out)@ == old(out)@ + decimal_text(n as nat),
    decreases n,
{
    if n >= 10 {
        push_decimal(out, n / 10);
    }
    out.push(digit_char(n % 10));
}

/// The id for a given moment and random number.
pub fn id_from_seed(timestamp: u64, random: u32) -> (id: String)
    ensures
        id@ == id_of_seed(timestamp, random),
        is_account_id(id@),
{
    let mut seed = String::new();
    push_decimal(&mut seed, timestamp);
    push_decimal(&mut seed, random as u64);
    proof {
        assert(power_of_ten(20) == 100_000_000_000_000_000_000) by {
            reveal_with_fuel(power_of_ten, 21);
        }
        decimal_text_is_short(timestamp as nat, 20);
        decimal_text_is_short(random as nat, 20);
        assert(seed@ == decimal_text(timestamp as nat) + decimal_text(random as nat));
    }
    let digest = sha256_hex_digest(seed.as_str());
    let id = digest.as_str().substring_char(0, 8).to_owned();
    assert forall|i: int| 0 <= i < 8 implies is_lower_hex(#[trigger] id@[i]) by {
        assert(id@[i] == digest@[i]);
    }
    id
}

/// The seconds since the epoch on the system clock, or 0 where the clock stands
/// before the epoch.
pub fn unix_seconds() -> (seconds: u64) {
    let now = std::time::SystemTime::now();
    match since_unix_epoch(&now) {
        Ok(elapsed) => elapsed.as_secs(),
        Err(_) => 0,
    }
}

/// A new id from the clock and the random generator.
pub fn generate_id() -> (id: String)
    ensures
        is_account_id(id@),
        exists|timestamp: u64, random: u32|
            random < u32::MAX && id@ == #[trigger] id_of_seed(timestamp, random),
{
    let timestamp = unix_seconds();
    let random = random_below(u32::MAX);
    id_from_seed(timestamp, random)
}

/// One credential entry.
#[derive(Debug, PartialEq, Eq)]
pub struct Account {
    id: String,
    username_or_email: String,
    description: Option<String>,
    password: String,
}

impl View for Account {
    type V = AccountView;

    closed spec fn view(&self) -> AccountView {
        AccountView {
            id: self.id@,
            username_or_email: self.username_or_email@,
            description: text_of(self.description),
            password: self.password@,
        }
    }
}

impl Clone for Account {
    fn clone(&self) -> (copy: Self)
        ensures
            copy@ == self@,
    {
        let description = match &self.description {
            Some(text) => Some(text.clone()),
            None => None,
        };
        Account {
            id: self.id.clone(),
            username_or_email: self.username_or_email.clone(),
            description,
            password: self.password.clone(),
        }
    }
}

impl Account {
    /// A new account with a freshly generated id.
    pub fn new(username_or_email: String, description: Option<String>, password: String) -> (account: Self)
        ensures
            is_account_id(account@.id),
            exists|timestamp: u64, random: u32|
                random < u32::MAX && account@.id == #[trigger] id_of_seed(timestamp, random),
            account@.username_or_email == username_or_email@,
            account@.description == text_of(description),
            account@.password == password@,
    {
        let id = generate_id();
        Account { id, username_or_email, description, password }
    }

    /// An account with a given id, as read back from storage.
    pub fn with_id(
        id: String,
        username_or_email: String,
        description: Option<String>,
        password: String,
    ) -> (account: Self)
        ensures
            account@ == (AccountView {
                id: id@,
                username_or_email: username_or_email@,
                description: text_of(description),
                password: password@,
            }),
    {
        Account { id, username_or_email, description, password }
    }

    /// The id.
    pub fn get_id(&self) -> (id: &str)
        ensures
            id@ == self@.id,
    {
        self.id.as_str()
    }

    /// The username or e-mail address.
    pub fn get_username_or_email(&self) -> (username_or_email: &str)
        ensures
            username_or_email@ == self@.username_or_email,
    {
        self.username_or_email.as_str()
    }

    /// The description, if there is one.
    pub fn get_description(&self) -> (description: &Option<String>)
        ensures
            text_of(*description) == self@.description,
    {
        &self.description
    }

    /// The password.
    pub fn get_password(&self) -> (password: &str)
        ensures
            password@ == self@.password,
    {
        self.password.as_str()
    }

    /// Sets the username or e-mail address.
    pub fn set_username_or_email(&mut self, username_or_email: String)
        ensures
            final(self)@ == (AccountView { username_or_email: username_or_email@, ..old(self)@ }),
    {
        self.username_or_email = username_or_email;
    }

    /// Sets the description; `None` clears it.
    pub fn set_description(&mut self, description: Option<String>)
        ensures
            final(self)@ == (AccountView { description: text_of(description), ..old(self)@ }),
    {
        self.description = description;
    }

    /// Sets the password.
    pub fn set_password(&mut self, password: String)
        ensures
            final(self)@ == (AccountView { password: password@, ..old(self)@ }),
    {
        self.password = password;
    }

    /// Makes an edit: the id stays, each field changes as the edit says.
    pub fn apply(&mut self, edit: AccountEdit)
        ensures
            final(self)@ == edited(old(self)@, edit),
    {
        let AccountEdit { username_or_email, description, password } = edit;
        match username_or_email {
            Some(text) => self.set_username_or_email(text),
            None => {},
        }
        match description {
            DescriptionChange::Keep => {},
            DescriptionChange::Replace(text) => self.set_description(Some(text)),
            DescriptionChange::Clear => self.set_description(None),
        }
        match password {
            Some(text) => self.set_password(text),
            None => {},
        }
    }
}

/// What becomes of a description when an account is edited.
#[derive(Debug, PartialEq, Eq)]
pub enum DescriptionChange {
    /// It stays as it is.
    Keep,
    /// It is replaced.
    Replace(String),
    /// It is taken away.
    Clear,
}

/// Changes to an account, each field on its own; `None` leaves a field as it is.
#[derive(Debug, PartialEq, Eq)]
pub struct AccountEdit {
    pub username_or_email: Option<String>,
    pub description: DescriptionChange,
    pub password: Option<String>,
}

/// An account after an edit: the id stays, each field changes as the edit says.
pub open spec fn edited(account: AccountView, edit: AccountEdit) -> AccountView {
    AccountView {
        id: account.id,
        username_or_email: match edit.username_or_email {
            Some(text) => text@,
            None => account.username_or_email,
        },
        description: match edit.description {
            DescriptionChange::Keep => account.description,
            DescriptionChange::Replace(text) => Some(text@),
            DescriptionChange::Clear => None,
        },
        password: match edit.password {
            Some(text) => text@,
            None => account.password,
        },
    }
}

/// `accounts` with the edit made to the first account that has the id `id`;
/// `accounts` itself where none has it.
pub open spec fn edit_by_id(accounts: Seq<AccountView>, id: Seq<char>, edit: AccountEdit) -> Seq<
    AccountView,
> {
    if has_id(accounts, id) {
        let i = choose|i: int| is_first_with_id(accounts, id, i);
        accounts.update(i, edited(accounts[i], edit))
    } else {
        accounts
    }
}

/// The accounts of a vector, as mathematical values.
pub open spec fn views_of(accounts: Seq<Account>) -> Seq<AccountView> {
    accounts.map_values(|account: Account| account@)
}

/// Some account of `accounts` has the id `id`.
pub open spec fn has_id(accounts: Seq<AccountView>, id: Seq<char>) -> bool {
    exists|i: int| 0 <= i < accounts.len() && (#[trigger] accounts[i]).id == id
}

/// `i` is the place of the first account of `accounts` with the id `id`.
pub open spec fn is_first_with_id(accounts: Seq<AccountView>, id: Seq<char>, i: int) -> bool {
    &&& 0 <= i < accounts.len()
    &&& accounts[i].id == id
    &&& forall|j: int| 0 <= j < i ==> (#[trigger] accounts[j]).id != id
}

/// The first account of `accounts` with the id `id`, if there is one.
pub open spec fn find_by_id(accounts: Seq<AccountView>, id: Seq<char>) -> Option<AccountView> {
    if has_id(accounts, id) {
        Some(accounts[choose|i: int| is_first_with_id(accounts, id, i)])
    } else {
        None
    }
}

/// `accounts` without the first account that has the id `id`; `accounts` itself
/// where none has it.
pub open spec fn remove_by_id(accounts: Seq<AccountView>, id: Seq<char>) -> Seq<AccountView> {
    if has_id(accounts, id) {
        accounts.remove(choose|i: int| is_first_with_id(accounts, id, i))
    } else {
        accounts
    }
}

/// No two accounts of `accounts` share an id.
pub open spec fn ids_unique(accounts: Seq<AccountView>) -> bool {
    forall|i: int, j: int|
        0 <= i < j < accounts.len() ==> (#[trigger] accounts[i]).id != (#[trigger] accounts[j]).id
}

/// Two places that both are the first with an id are the same place.
pub proof fn first_with_id_is_unique(accounts: Seq<AccountView>, id: Seq<char>, i: int, j: int)
    requires
        is_first_with_id(accounts, id, i),
        is_first_with_id(accounts, id, j),
    ensures
        i == j,
{
    if i < j {
        assert(accounts[i].id != id);
    } else if j < i {
        assert(accounts[j].id != id);
    }
}

/// How many ids `create_account` draws before it gives up.
pub const MAX_ID_ATTEMPTS: usize = 16;

/// Every one of the ids that were drawn is an account id that some account of
/// `accounts` has, and there are `MAX_ID_ATTEMPTS` of them.
pub open spec fn drawn_in_vain(accounts: Seq<AccountView>, draws: Seq<Seq<char>>) -> bool {
    &&& draws.len() == MAX_ID_ATTEMPTS
    &&& forall|k: int|
        0 <= k < draws.len() ==> is_account_id(#[trigger] draws[k]) && has_id(accounts, draws[k])
}

/// No account of `accounts` has an id of the form that is drawn: whatever is drawn
/// is free.
pub open spec fn holds_no_account_id(accounts: Seq<AccountView>) -> bool {
    forall|i: int| 0 <= i < accounts.len() ==> !is_account_id((#[trigger] accounts[i]).id)
}

proof fn lemma_first_before(accounts: Seq<AccountView>, id: Seq<char>, k: int)
    requires
        0 <= k < accounts.len(),
        accounts[k].id == id,
    ensures
        exists|i: int| is_first_with_id(accounts, id, i),
    decreases k,
{
    if forall|j: int| 0 <= j < k ==> (#[trigger] accounts[j]).id != id {
        assert(is_first_with_id(accounts, id, k));
    } else {
        let j = choose|j: int| 0 <= j < k && (#[trigger] accounts[j]).id == id;
        lemma_first_before(accounts, id, j);
    }
}

/// Where some account has the id, one of them is the first.
pub proof fn first_with_id_exists(accounts: Seq<AccountView>, id: Seq<char>)
    requires
        has_id(accounts, id),
    ensures
        exists|i: int| is_first_with_id(accounts, id, i),
{
    let k = choose|k: int| 0 <= k < accounts.len() && (#[trigger] accounts[k]).id == id;
    lemma_first_before(accounts, id, k);
}

/// Whether no two of the accounts share an id.
fn have_unique_ids(accounts: &Vec<Account>) -> (unique: bool)
    ensures
        unique == ids_unique(views_of(accounts@)),
{
    let ghost views = views_of(accounts@);
    let mut i: usize = 0;
    while i < accounts.len()
        invariant
            i <= accounts.len(),
            views == views_of(accounts@),
            forall|a: int, b: int|
                0 <= a < b < i ==> (#[trigger] views[a]).id != (#[trigger] views[b]).id,
        decreases accounts.len() - i,
    {
        let mut j: usize = 0;
        while j < i
            invariant
                j <= i < accounts.len(),
                views == views_of(accounts@),
                forall|a: int| 0 <= a < j ==> (#[trigger] views[a]).id != views[i as int].id,
            decreases i - j,
        {
            if *accounts[j].id.as_str() == *accounts[i].id.as_str() {
                assert(views[j as int].id == views[i as int].id);
                return false;
            }
            j += 1;
        }
        i += 1;
    }
    true
}

/// An ordered collection of accounts.
#[derive(Debug, PartialEq, Eq)]
pub struct Database {
    accounts: Vec<Account>,
}

impl View for Database {
    type V = Seq<AccountView>;

    closed spec fn view(&self) -> Seq<AccountView> {
        views_of(self.accounts@)
    }
}

impl Database {
    /// The store is well formed when no two of its accounts share an id.
    pub open spec fn wf(&self) -> bool {
        ids_unique(self@)
    }

    /// The empty store.
    pub fn new() -> (database: Self)
        ensures
            database@ == Seq::<AccountView>::empty(),
            database.wf(),
    {
        let database = Database { accounts: Vec::new() };
        assert(database@ =~= Seq::<AccountView>::empty());
        database
    }

    /// The store that holds `accounts` in their order, unless two of them share an
    /// id.
    pub fn from_accounts(accounts: Vec<Account>) -> (database: Option<Self>)
        ensures
            database is Some <==> ids_unique(views_of(accounts@)),
            database matches Some(store) ==> store@ == views_of(accounts@) && store.wf(),
    {
        if have_unique_ids(&accounts) {
            Some(Database { accounts })
        } else {
            None
        }
    }

    /// Whether the store is well formed: whether no two of its accounts share an id.
    pub fn is_wf(&self) -> (unique: bool)
        ensures
            unique == self.wf(),
    {
        have_unique_ids(&self.accounts)
    }

    /// The number of accounts.
    pub fn len(&self) -> (n: usize)
        ensures
            n == self@.len(),
    {
        self.accounts.len()
    }

    /// The place of the first account with the id `id`.
    pub fn position_of(&self, id: &str) -> (place: Option<usize>)
        ensures
            match place {
                Some(i) => is_first_with_id(self@, id@, i as int),
                None => !has_id(self@, id@),
            },
    {
        let mut i: usize = 0;
        while i < self.accounts.len()
            invariant
                i <= self.accounts.len(),
                forall|j: int| 0 <= j < i ==> (#[trigger] self@[j]).id != id@,
            decreases self.accounts.len() - i,
        {
            if *self.accounts[i].id.as_str() == *id {
                assert(self@[i as int] == self.accounts@[i as int]@);
                return Some(i);
            }
            assert(self@[i as int] == self.accounts@[i as int]@);
            i += 1;
        }
        None
    }

    /// Appends `account` unless its id is already taken; says whether it did.
    pub fn add_account(&mut self, account: Account) -> (added: bool)
        ensures
            added == !has_id(old(self)@, account@.id),
            added ==> final(self)@ == old(self)@.push(account@),
            !added ==> final(self)@ == old(self)@,
            old(self).wf() ==> final(self).wf(),
    {
        match self.position_of(account.id.as_str()) {
            Some(_) => false,
            None => {
                self.accounts.push(account);
                assert(self@ =~= old(self)@.push(account@));
                true
            },
        }
    }

    /// Creates an account under an id that no account of the store has yet, appends
    /// it and returns the id. An id that is already taken is drawn again; when every
    /// one of `MAX_ID_ATTEMPTS` draws was taken, and only then, nothing is added. So
    /// an account is always created in a store that holds no id of the drawn form,
    /// such as the empty store.
    pub fn create_account(
        &mut self,
        username_or_email: String,
        description: Option<String>,
        password: String,
    ) -> (created: Option<String>)
        ensures
            match created {
                Some(id) => {
                    &&& is_account_id(id@)
                    &&& !has_id(old(self)@, id@)
                    &&& final(self)@ == old(self)@.push(
                        AccountView {
                            id: id@,
                            username_or_email: username_or_email@,
                            description: text_of(description),
                            password: password@,
                        },
                    )
                },
                None => final(self)@ == old(self)@,
            },
            created matches Some(id) ==> find_by_id(final(self)@, id@) == Some(
                AccountView {
                    id: id@,
                    username_or_email: username_or_email@,
                    description: text_of(description),
                    password: password@,
                },
            ),
            created is None ==> exists|draws: Seq<Seq<char>>|
                #[trigger] drawn_in_vain(old(self)@, draws),
            holds_no_account_id(old(self)@) ==> created is Some,
            old(self).wf() ==> final(self).wf(),
    {
        let mut attempt: usize = 0;
        let ghost mut draws: Seq<Seq<char>> = Seq::empty();
        while attempt < MAX_ID_ATTEMPTS
            invariant
                *self == *old(self),
                attempt <= MAX_ID_ATTEMPTS,
                draws.len() == attempt,
                forall|k: int|
                    0 <= k < draws.len() ==> is_account_id(#[trigger] draws[k]) && has_id(
                        self@,
                        draws[k],
                    ),
            decreases MAX_ID_ATTEMPTS - attempt,
        {
            let id = generate_id();
            proof {
                draws = draws.push(id@);
            }
            if self.position_of(id.as_str()).is_none() {
                let account = Account::with_id(id.clone(), username_or_email, description, password);
                self.accounts.push(account);
                proof {
                    assert(self@ =~= old(self)@.push(account@));
                    crate::laws::find_after_create(old(self)@, account@);
                }
                return Some(id);
            }
            attempt += 1;
        }
        proof {
            assert(drawn_in_vain(old(self)@, draws));
            if holds_no_account_id(old(self)@) {
                let taken = draws[0];
                let i = choose|i: int|
                    0 <= i < old(self)@.len() && (#[trigger] old(self)@[i]).id == taken;
                assert(is_account_id(old(self)@[i].id));
            }
        }
        None
    }

    /// The accounts in the order in which they were added.
    pub fn get_accounts(&self) -> (accounts: &Vec<Account>)
        ensures
            views_of(accounts@) == self@,
    {
        &self.accounts
    }

    /// The first account with the id `id`.
    pub fn get_account_by_id(&self, id: &str) -> (found: Option<&Account>)
        ensures
            match found {
                Some(account) => Some(account@) == find_by_id(self@, id@),
                None => find_by_id(self@, id@) is None,
            },
    {
        match self.position_of(id) {
            Some(i) => {
                proof {
                    let k = choose|k: int| is_first_with_id(self@, id@, k);
                    first_with_id_is_unique(self@, id@, i as int, k);
                }
                Some(&self.accounts[i])
            },
            None => None,
        }
    }

    /// A handle on the first account with the id `id`: what the caller leaves in it
    /// takes that account's place in the store.
    pub fn get_account_by_id_mut(&mut self, id: &str) -> (found: Option<&mut Account>)
        ensures
            match found {
                Some(account) => exists|i: int|
                    {
                        &&& is_first_with_id(old(self)@, id@, i)
                        &&& (*account)@ == old(self)@[i]
                        &&& final(self)@ == old(self)@.update(i, (*final(account))@)
                    },
                None => !has_id(old(self)@, id@) && final(self)@ == old(self)@,
            },
    {
        match self.position_of(id) {
            Some(i) => {
                proof {
                    assert forall|other: Account|
                        #[trigger] views_of(self.accounts@.update(i as int, other))
                            == self@.update(i as int, other@) by {
                        assert(views_of(self.accounts@.update(i as int, other))
                            =~= self@.update(i as int, other@));
                    }
                }
                Some(&mut self.accounts[i])
            },
            None => None,
        }
    }

    /// Makes an edit to the first account with the id `id`; says whether there was
    /// one.
    pub fn edit_account(&mut self, id: &str, edit: AccountEdit) -> (changed: bool)
        ensures
            changed == has_id(old(self)@, id@),
            final(self)@ == edit_by_id(old(self)@, id@, edit),
            old(self).wf() ==> final(self).wf(),
    {
        proof {
            if has_id(self@, id@) {
                first_with_id_exists(self@, id@);
            }
        }
        let ghost before = self@;
        match self.get_account_by_id_mut(id) {
            Some(account) => {
                account.apply(edit);
                proof {
                    let i = choose|i: int| is_first_with_id(before, id@, i);
                    assert forall|k: int|
                        is_first_with_id(before, id@, k) implies k == i by {
                        first_with_id_is_unique(before, id@, k, i);
                    }
                }
                true
            },
            None => false,
        }
    }

    /// Removes the first account with the id `id`; says whether there was one.
    pub fn remove_account(&mut self, id: &str) -> (removed: bool)
        ensures
            removed == has_id(old(self)@, id@),
            final(self)@ == remove_by_id(old(self)@, id@),
            old(self).wf() ==> final(self).wf() && find_by_id(final(self)@, id@) is None,
    {
        proof {
            if self.wf() {
                crate::laws::find_after_remove(self@, id@);
            }
        }
        match self.position_of(id) {
            Some(i) => {
                proof {
                    let k = choose|k: int| is_first_with_id(self@, id@, k);
                    first_with_id_is_unique(self@, id@, i as int, k);
                }
                self.accounts.remove(i);
                assert(self@ =~= old(self)@.remove(i as int));
                true
            },
            None => false,
        }
    }
}

} // verus!
