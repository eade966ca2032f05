//! In-memory tables that stand in for the database: merchant key stores and
//! the authentication methods of organizations.
use vstd::prelude::*;
use vstd::string::StringExecFns;

verus! {

/// Why the store refused a request.
#[derive(Debug)]
pub enum StorageError {
    /// A row with the same key is there already.
    DuplicateValue { entity: &'static str, key: Option<String> },
    /// No row answers the request; the text says which was asked for.
    ValueNotFound(String),
    /// The table cannot number another row.
    MockDbError,
}

/// The key store of a merchant.
pub struct MerchantKeyStore {
    pub merchant_id: String,
    pub key: Vec<u8>,
    pub created_at: i64,
}

/// A key store as contracts speak of it.
pub struct MerchantKeyStoreModel {
    pub merchant_id: Seq<char>,
    pub key: Seq<u8>,
    pub created_at: i64,
}

impl View for MerchantKeyStore {
    type V = MerchantKeyStoreModel;

    open spec fn view(&self) -> MerchantKeyStoreModel {
        MerchantKeyStoreModel {
            merchant_id: self.merchant_id@,
            key: self.key@,
            created_at: self.created_at,
        }
    }
}

/// How an organization authenticates its users.
#[derive(Debug, Clone, Copy, PartialEq, Eq, Structural)]
pub enum AuthMethod {
    OpenIdConnect,
    MagicLink,
    Password,
}

/// An authentication method that is to be stored.
pub struct OrgAuthenticationMethodNew {
    pub org_id: String,
    pub auth_method: AuthMethod,
    pub auth_config: Option<String>,
    pub created_at: i64,
    pub last_modified_at: i64,
}

/// A stored authentication method.
pub struct OrgAuthenticationMethod {
    pub id: i32,
    pub org_id: String,
    pub auth_method: AuthMethod,
    pub auth_config: Option<String>,
    pub created_at: i64,
    pub last_modified_at: i64,
}

/// A stored authentication method as contracts speak of it.
pub struct OrgAuthenticationMethodModel {
    pub id: i32,
    pub org_id: Seq<char>,
    pub auth_method: AuthMethod,
    pub auth_config: Option<Seq<char>>,
    pub created_at: i64,
    pub last_modified_at: i64,
}

/// A change to a stored authentication method.
pub enum OrgAuthenticationMethodUpdate {
    UpdateAuthConfig { auth_config: Option<String> },
}

/// An optional text as its characters.
pub open spec fn optional_text(text: Option<String>) -> Option<Seq<char>> {
    match text {
        Some(held) => Some(held@),
        None => None,
    }
}

impl View for OrgAuthenticationMethod {
    type V = OrgAuthenticationMethodModel;

    open spec fn view(&self) -> OrgAuthenticationMethodModel {
        OrgAuthenticationMethodModel {
            id: self.id,
            org_id: self.org_id@,
            auth_method: self.auth_method,
            auth_config: optional_text(self.auth_config),
            created_at: self.created_at,
            last_modified_at: self.last_modified_at,
        }
    }
}

/// The position of the first of `items` that `hit` holds of, their number
/// where it holds of none.
pub open spec fn first_index<T>(items: Seq<T>, hit: spec_fn(T) -> bool) -> int
    decreases items.len(),
{
    if items.len() == 0 || hit(items[0]) {
        0
    } else {
        1 + first_index(items.drop_first(), hit)
    }
}

/// The first hit is where no hit stands before and a hit, or the end,
/// stands.
pub proof fn lemma_first_index<T>(items: Seq<T>, hit: spec_fn(T) -> bool, at: int)
    requires
        0 <= at <= items.len(),
        forall|i: int| 0 <= i < at ==> !hit(#[trigger] items[i]),
        at < items.len() ==> hit(items[at]),
    ensures
        first_index(items, hit) == at,
    decreases items.len(),
{
    if at > 0 {
        let rest = items.drop_first();
        assert forall|i: int| 0 <= i < at - 1 implies !hit(#[trigger] rest[i]) by {
            assert(rest[i] == items[i + 1]);
        }
        lemma_first_index(rest, hit, at - 1);
    }
}

/// The rows of `items` that `hit` holds of, in order.
pub open spec fn selected<T>(items: Seq<T>, hit: spec_fn(T) -> bool) -> Seq<T> {
    items.filter(hit)
}

/// The key stores, in the order in which they were inserted.
pub struct MerchantKeyStoreTable {
    rows: Vec<MerchantKeyStore>,
}

/// The key stores of a table as contracts speak of them.
pub open spec fn key_store_models(rows: Seq<MerchantKeyStore>) -> Seq<MerchantKeyStoreModel> {
    rows.map_values(|row: MerchantKeyStore| row@)
}

/// The position of the key store of `merchant_id`, the number of rows where
/// there is none.
pub open spec fn key_store_position(rows: Seq<MerchantKeyStoreModel>, merchant_id: Seq<char>) -> int {
    first_index(rows, |row: MerchantKeyStoreModel| row.merchant_id == merchant_id)
}

/// Whether a key store belongs to one of the given merchants.
pub open spec fn of_merchants(merchant_ids: Seq<String>) -> spec_fn(MerchantKeyStoreModel) -> bool {
    |row: MerchantKeyStoreModel|
        exists|i: int|
            0 <= i < merchant_ids.len() && (#[trigger] merchant_ids[i])@ == row.merchant_id
}

/// A copy of a key store.
fn copy_key_store(row: &MerchantKeyStore) -> (copy: MerchantKeyStore)
    ensures
        copy@ == row@,
{
    MerchantKeyStore {
        merchant_id: row.merchant_id.clone(),
        key: row.key.clone(),
        created_at: row.created_at,
    }
}

impl View for MerchantKeyStoreTable {
    type V = Seq<MerchantKeyStoreModel>;

    closed spec fn view(&self) -> Seq<MerchantKeyStoreModel> {
        key_store_models(self.rows@)
    }
}

impl MerchantKeyStoreTable {
    /// A table without rows.
    pub fn new() -> (table: Self)
        ensures
            table@.len() == 0,
    {
        let table = MerchantKeyStoreTable { rows: Vec::new() };
        assert(table@ =~= Seq::empty());
        table
    }

    /// The position of the key store of `merchant_id`, `None` where there is
    /// none.
    fn position(&self, merchant_id: &str) -> (found: Option<usize>)
        ensures
            match found {
                Some(at) => at < self@.len() && key_store_position(self@, merchant_id@) == at,
                None => key_store_position(self@, merchant_id@) == self@.len(),
            },
    {
        let ghost hit = |row: MerchantKeyStoreModel| row.merchant_id == merchant_id@;
        let wanted = String::from_str(merchant_id);
        let mut i: usize = 0;
        while i < self.rows.len()
            invariant
                i <= self.rows@.len(),
                wanted@ == merchant_id@,
                hit == |row: MerchantKeyStoreModel| row.merchant_id == merchant_id@,
                forall|j: int| 0 <= j < i ==> !hit(#[trigger] self@[j]),
            decreases self.rows@.len() - i,
        {
            if self.rows[i].merchant_id == wanted {
                proof {
                    assert(hit(self@[i as int]));
                    lemma_first_index(self@, hit, i as int);
                }
                return Some(i);
            }
            i = i + 1;
        }
        proof {
            lemma_first_index(self@, hit, self@.len() as int);
        }
        None
    }

    /// Stores a key store. A merchant that has one already is refused with
    /// `DuplicateValue`, and the table stays as it was; else the key store is
    /// the last row, and the call returns what it stored.
    pub fn insert_merchant_key_store(&mut self, merchant_key_store: MerchantKeyStore) -> (result:
        Result<MerchantKeyStore, StorageError>)
        ensures
            key_store_position(old(self)@, merchant_key_store.merchant_id@) < old(self)@.len() ==> {
                &&& result matches Err(StorageError::DuplicateValue { entity, key })
                &&& entity@ == "merchant_key_store"@
                &&& optional_text(key) == Some(merchant_key_store.merchant_id@)
                &&& final(self)@ == old(self)@
            },
            key_store_position(old(self)@, merchant_key_store.merchant_id@) == old(self)@.len() ==> {
                &&& result matches Ok(stored)
                &&& stored@ == merchant_key_store@
                &&& final(self)@ == old(self)@.push(merchant_key_store@)
            },
    {
        if self.position(merchant_key_store.merchant_id.as_str()).is_some() {
            return Err(
                StorageError::DuplicateValue {
                    entity: "merchant_key_store",
                    key: Some(merchant_key_store.merchant_id.clone()),
                },
            );
        }
        let stored = copy_key_store(&merchant_key_store);
        self.rows.push(merchant_key_store);
        proof {
            assert(self@ =~= old(self)@.push(stored@));
        }
        Ok(stored)
    }

    /// The key store of the merchant, `ValueNotFound` where there is none.
    pub fn get_merchant_key_store_by_merchant_id(&self, merchant_id: &str) -> (result: Result<
        MerchantKeyStore,
        StorageError,
    >)
        ensures
            key_store_position(self@, merchant_id@) < self@.len() ==> (result matches Ok(found)
                && found@ == self@[key_store_position(self@, merchant_id@)]),
            key_store_position(self@, merchant_id@) == self@.len() ==> (
            result matches Err(StorageError::ValueNotFound(what)) && what@
                == "merchant_key_store"@),
    {
        match self.position(merchant_id) {
            Some(at) => Ok(copy_key_store(&self.rows[at])),
            None => Err(StorageError::ValueNotFound(String::from_str("merchant_key_store"))),
        }
    }

    /// Removes the key store of the merchant, and says so; the other rows keep
    /// their order. `ValueNotFound` where there is none.
    pub fn delete_merchant_key_store_by_merchant_id(&mut self, merchant_id: &str) -> (result:
        Result<bool, StorageError>)
        ensures
            key_store_position(old(self)@, merchant_id@) < old(self)@.len() ==> {
                &&& result matches Ok(true)
                &&& final(self)@ == old(self)@.remove(key_store_position(old(self)@, merchant_id@))
            },
            key_store_position(old(self)@, merchant_id@) == old(self)@.len() ==> {
                &&& result matches Err(StorageError::ValueNotFound(what))
                &&& what@ == "No merchant key store found for merchant_id = "@ + merchant_id@
                &&& final(self)@ == old(self)@
            },
    {
        match self.position(merchant_id) {
            Some(index) => {
                let _removed = self.rows.remove(index);
                proof {
                    assert(self@ =~= old(self)@.remove(index as int));
                }
                Ok(true)
            },
            None => {
                let mut what = String::from_str("No merchant key store found for merchant_id = ");
                what.append(merchant_id);
                Err(StorageError::ValueNotFound(what))
            },
        }
    }

    /// The key stores of the given merchants, in the order of the table.
    pub fn list_multiple_key_stores(&self, merchant_ids: &Vec<String>) -> (found: Vec<
        MerchantKeyStore,
    >)
        ensures
            key_store_models(found@) == selected(self@, of_merchants(merchant_ids@)),
    {
        let ghost hit = of_merchants(merchant_ids@);
        let mut found: Vec<MerchantKeyStore> = Vec::new();
        let mut i: usize = 0;
        proof {
            reveal(Seq::filter);
            assert(self@.take(0) =~= Seq::empty());
            assert(key_store_models(found@) =~= Seq::empty());
        }
        while i < self.rows.len()
            invariant
                i <= self.rows@.len(),
                hit == of_merchants(merchant_ids@),
                key_store_models(found@) == self@.take(i as int).filter(hit),
            decreases self.rows@.len() - i,
        {
            let row = &self.rows[i];
            let wanted = holds_name(merchant_ids, &row.merchant_id);
            proof {
                reveal(Seq::filter);
                let upto = self@.take(i + 1);
                assert(upto.drop_last() =~= self@.take(i as int));
                assert(upto.last() == row@);
                assert(wanted == hit(row@));
            }
            if wanted {
                let ghost before = key_store_models(found@);
                found.push(copy_key_store(row));
                proof {
                    assert(key_store_models(found@) =~= before.push(row@));
                }
            }
            i = i + 1;
        }
        proof {
            assert(self@.take(self@.len() as int) =~= self@);
        }
        found
    }
}

/// Whether `list` holds `name`.
fn holds_name(list: &Vec<String>, name: &String) -> (held: bool)
    ensures
        held == exists|i: int| 0 <= i < list@.len() && (#[trigger] list@[i])@ == name@,
{
    let mut i: usize = 0;
    while i < list.len()
        invariant
            i <= list@.len(),
            forall|j: int| 0 <= j < i ==> (#[trigger] list@[j])@ != name@,
        decreases list@.len() - i,
    {
        if list[i] == *name {
            return true;
        }
        i = i + 1;
    }
    false
}

/// The authentication methods, in the order in which they were inserted.
pub struct OrgAuthenticationMethodTable {
    rows: Vec<OrgAuthenticationMethod>,
}

/// The rows of a table as contracts speak of them.
pub open spec fn auth_method_models(rows: Seq<OrgAuthenticationMethod>) -> Seq<
    OrgAuthenticationMethodModel,
> {
    rows.map_values(|row: OrgAuthenticationMethod| row@)
}

/// Whether a row is of the organization and, where one is asked for, of the
/// method.
pub open spec fn of_organization(org_id: Seq<char>, auth_method: Option<AuthMethod>) -> spec_fn(
    OrgAuthenticationMethodModel,
) -> bool {
    |row: OrgAuthenticationMethodModel|
        row.org_id == org_id && (auth_method matches Some(method) ==> row.auth_method == method)
}

/// The position of the first row of the organization and, where one is asked
/// for, of the method; the number of rows where there is none.
pub open spec fn auth_method_position(
    rows: Seq<OrgAuthenticationMethodModel>,
    org_id: Seq<char>,
    auth_method: Option<AuthMethod>,
) -> int {
    first_index(rows, of_organization(org_id, auth_method))
}

impl View for OrgAuthenticationMethodTable {
    type V = Seq<OrgAuthenticationMethodModel>;

    closed spec fn view(&self) -> Seq<OrgAuthenticationMethodModel> {
        auth_method_models(self.rows@)
    }
}

/// A copy of an optional text.
fn copy_optional(text: &Option<String>) -> (copy: Option<String>)
    ensures
        copy == *text,
{
    match text {
        Some(held) => Some(held.clone()),
        None => None,
    }
}

/// A copy of a stored authentication method.
fn copy_auth_method(row: &OrgAuthenticationMethod) -> (copy: OrgAuthenticationMethod)
    ensures
        copy@ == row@,
{
    OrgAuthenticationMethod {
        id: row.id,
        org_id: row.org_id.clone(),
        auth_method: row.auth_method,
        auth_config: copy_optional(&row.auth_config),
        created_at: row.created_at,
        last_modified_at: row.last_modified_at,
    }
}

impl OrgAuthenticationMethodTable {
    /// A table without rows.
    pub fn new() -> (table: Self)
        ensures
            table@.len() == 0,
    {
        let table = OrgAuthenticationMethodTable { rows: Vec::new() };
        assert(table@ =~= Seq::empty());
        table
    }

    /// The position of the first row that is of the organization and, where
    /// one is asked for, of the method; `None` where there is none.
    fn position(&self, org_id: &str, auth_method: Option<AuthMethod>) -> (found: Option<usize>)
        ensures
            match found {
                Some(at) => at < self@.len() && auth_method_position(self@, org_id@, auth_method)
                    == at,
                None => auth_method_position(self@, org_id@, auth_method) == self@.len(),
            },
    {
        let ghost hit = of_organization(org_id@, auth_method);
        let wanted = String::from_str(org_id);
        let mut i: usize = 0;
        while i < self.rows.len()
            invariant
                i <= self.rows@.len(),
                wanted@ == org_id@,
                hit == of_organization(org_id@, auth_method),
                forall|j: int| 0 <= j < i ==> !hit(#[trigger] self@[j]),
            decreases self.rows@.len() - i,
        {
            let of_method = match auth_method {
                Some(method) => self.rows[i].auth_method == method,
                None => true,
            };
            if self.rows[i].org_id == wanted && of_method {
                proof {
                    assert(hit(self@[i as int]));
                    lemma_first_index(self@, hit, i as int);
                }
                return Some(i);
            }
            i = i + 1;
        }
        proof {
            lemma_first_index(self@, hit, self@.len() as int);
        }
        None
    }

    /// Stores an authentication method under the next number. An
    /// organization that has a row already is refused with `DuplicateValue`;
    /// a table with more rows than can be numbered is `MockDbError`. A call
    /// that fails leaves the table as it was.
    pub fn insert_org_authentication_method(
        &mut self,
        org_authentication_method: OrgAuthenticationMethodNew,
    ) -> (result: Result<OrgAuthenticationMethod, StorageError>)
        ensures
            ({
                let known = auth_method_position(
                    old(self)@,
                    org_authentication_method.org_id@,
                    None,
                ) < old(self)@.len();
                let stored = OrgAuthenticationMethodModel {
                    id: old(self)@.len() as i32,
                    org_id: org_authentication_method.org_id@,
                    auth_method: org_authentication_method.auth_method,
                    auth_config: optional_text(org_authentication_method.auth_config),
                    created_at: org_authentication_method.created_at,
                    last_modified_at: org_authentication_method.last_modified_at,
                };
                &&& known ==> {
                    &&& result matches Err(StorageError::DuplicateValue { entity, key })
                    &&& entity@ == "role_id"@
                    &&& key is None
                    &&& final(self)@ == old(self)@
                }
                &&& !known && old(self)@.len() > i32::MAX ==> {
                    &&& result matches Err(StorageError::MockDbError)
                    &&& final(self)@ == old(self)@
                }
                &&& !known && old(self)@.len() <= i32::MAX ==> {
                    &&& result matches Ok(row)
                    &&& row@ == stored
                    &&& final(self)@ == old(self)@.push(stored)
                }
            }),
    {
        if self.position(org_authentication_method.org_id.as_str(), None).is_some() {
            return Err(StorageError::DuplicateValue { entity: "role_id", key: None });
        }
        let count = self.rows.len();
        if count > 0x7fff_ffff {
            return Err(StorageError::MockDbError);
        }
        let row = OrgAuthenticationMethod {
            id: count as i32,
            org_id: org_authentication_method.org_id,
            auth_method: org_authentication_method.auth_method,
            auth_config: org_authentication_method.auth_config,
            created_at: org_authentication_method.created_at,
            last_modified_at: org_authentication_method.last_modified_at,
        };
        let stored = copy_auth_method(&row);
        self.rows.push(row);
        proof {
            assert(self@ =~= old(self)@.push(stored@));
        }
        Ok(stored)
    }

    /// The authentication methods of the organization, in the order of the
    /// table; `ValueNotFound` where it has none.
    pub fn get_org_authentication_methods_details(&self, org_id: &str) -> (result: Result<
        Vec<OrgAuthenticationMethod>,
        StorageError,
    >)
        ensures
            ({
                let rows = selected(self@, of_organization(org_id@, None));
                &&& rows.len() > 0 ==> (result matches Ok(found) && auth_method_models(found@)
                    == rows)
                &&& rows.len() == 0 ==> (result matches Err(StorageError::ValueNotFound(what))
                    && what@ == "No org authentication found for org_id = "@ + org_id@)
            }),
    {
        let ghost hit = of_organization(org_id@, None);
        let wanted = String::from_str(org_id);
        let mut found: Vec<OrgAuthenticationMethod> = Vec::new();
        let mut i: usize = 0;
        proof {
            reveal(Seq::filter);
            assert(self@.take(0) =~= Seq::empty());
            assert(auth_method_models(found@) =~= Seq::empty());
        }
        while i < self.rows.len()
            invariant
                i <= self.rows@.len(),
                wanted@ == org_id@,
                hit == of_organization(org_id@, None),
                auth_method_models(found@) == self@.take(i as int).filter(hit),
            decreases self.rows@.len() - i,
        {
            let row = &self.rows[i];
            proof {
                reveal(Seq::filter);
                let upto = self@.take(i + 1);
                assert(upto.drop_last() =~= self@.take(i as int));
                assert(upto.last() == row@);
            }
            if row.org_id == wanted {
                let ghost before = auth_method_models(found@);
                found.push(copy_auth_method(row));
                proof {
                    assert(auth_method_models(found@) =~= before.push(row@));
                }
            }
            i = i + 1;
        }
        proof {
            assert(self@.take(self@.len() as int) =~= self@);
        }
        if found.len() == 0 {
            let mut what = String::from_str("No org authentication found for org_id = ");
            what.append(org_id);
            return Err(StorageError::ValueNotFound(what));
        }
        Ok(found)
    }

    /// Changes the configuration of the first row that is of the organization
    /// and of the method, stamps it with `now`, and returns the row as it then
    /// is; `ValueNotFound` where there is no such row, and the table stays as
    /// it was.
    pub fn update_org_authentication_method(
        &mut self,
        org_id: &str,
        auth_method: AuthMethod,
        org_authentication_method_update: OrgAuthenticationMethodUpdate,
        now: i64,
    ) -> (result: Result<OrgAuthenticationMethod, StorageError>)
        ensures
            ({
                let at = auth_method_position(old(self)@, org_id@, Some(auth_method));
                let config = match org_authentication_method_update {
                    OrgAuthenticationMethodUpdate::UpdateAuthConfig {
                        auth_config,
                    } => optional_text(auth_config),
                };
                &&& at < old(self)@.len() ==> {
                    let updated = OrgAuthenticationMethodModel {
                        auth_config: config,
                        last_modified_at: now,
                        ..old(self)@[at]
                    };
                    &&& result matches Ok(row)
                    &&& row@ == updated
                    &&& final(self)@ == old(self)@.update(at, updated)
                }
                &&& at == old(self)@.len() ==> {
                    &&& result matches Err(StorageError::ValueNotFound(what))
                    &&& what@ == "No authentication method available for the org = "@ + org_id@
                    &&& final(self)@ == old(self)@
                }
            }),
    {
        match self.position(org_id, Some(auth_method)) {
            Some(at) => {
                let OrgAuthenticationMethodUpdate::UpdateAuthConfig { auth_config } =
                    org_authentication_method_update;
                let row = &self.rows[at];
                let updated = OrgAuthenticationMethod {
                    id: row.id,
                    org_id: row.org_id.clone(),
                    auth_method: row.auth_method,
                    auth_config,
                    created_at: row.created_at,
                    last_modified_at: now,
                };
                let returned = copy_auth_method(&updated);
                self.rows.set(at, updated);
                proof {
                    assert(self@ =~= old(self)@.update(at as int, returned@));
                }
                Ok(returned)
            },
            None => {
                let mut what = String::from_str(
                    "No authentication method available for the org = ",
                );
                what.append(org_id);
                Err(StorageError::ValueNotFound(what))
            },
        }
    }
}

} // verus!
