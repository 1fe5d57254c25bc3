//! Associates, their roles, and the dictionary items in which the registrar keeps them.
//!
//! The registrar keeps two dictionaries in the host's global state. `associates` maps the text
//! of a public key, and the text of its account hash, to the number of the associate's role.
//! `public_keys` maps the text of a public key to its account hash, and the text of the account
//! hash back to the public key. The functions of `Associates` say which items are read and
//! which are written; the contract runtime performs the reads and writes.
use vstd::prelude::*;
use crate::encoding::{
    account_hash_of, account_hash_text, is_public_key, lower_hex, public_key_account_hash,
    public_key_display, public_key_text,
};
use crate::keys::{dictionary_handle, spec_dictionary_handle, DictionaryHandle, HostKey};
use crate::registrar::error::RegistrarError;

verus! {

/// The role of an associate of the firm.
#[derive(Clone, Copy, Debug, PartialEq, Eq, Structural)]
pub enum AssociateType {
    NotMember,
    Partner,
    Judge,
    Lawyer,
    Clerk,
}

impl AssociateType {
    /// The number under which a role is stored: `NotMember` is 0, then 1 to 4 in order.
    pub open spec fn spec_value(self) -> u32 {
        match self {
            AssociateType::NotMember => 0,
            AssociateType::Partner => 1,
            AssociateType::Judge => 2,
            AssociateType::Lawyer => 3,
            AssociateType::Clerk => 4,
        }
    }

    /// The role stored under `u`, or the error for a number that names no role.
    pub open spec fn spec_from(u: u32) -> Result<AssociateType, RegistrarError> {
        if u == 0 {
            Ok(AssociateType::NotMember)
        } else if u == 1 {
            Ok(AssociateType::Partner)
        } else if u == 2 {
            Ok(AssociateType::Judge)
        } else if u == 3 {
            Ok(AssociateType::Lawyer)
        } else if u == 4 {
            Ok(AssociateType::Clerk)
        } else {
            Err(RegistrarError::AssociateTypeNonExistant)
        }
    }

    /// Reads a stored role number: 0 to 4 give the roles, any other number is refused with
    /// `AssociateTypeNonExistant`.
    pub fn from(u: u32) -> (r: Result<AssociateType, RegistrarError>)
        ensures
            r == Self::spec_from(u),
            r is Ok <==> u <= 4,
            r matches Ok(t) ==> t.spec_value() == u,
    {
        match u {
            0 => Ok(AssociateType::NotMember),
            1 => Ok(AssociateType::Partner),
            2 => Ok(AssociateType::Judge),
            3 => Ok(AssociateType::Lawyer),
            4 => Ok(AssociateType::Clerk),
            _ => Err(RegistrarError::AssociateTypeNonExistant),
        }
    }
}

impl From<AssociateType> for u32 {
    fn from(fin: AssociateType) -> (r: u32) {
        match fin {
            AssociateType::NotMember => 0,
            AssociateType::Partner => 1,
            AssociateType::Judge => 2,
            AssociateType::Lawyer => 3,
            AssociateType::Clerk => 4,
        }
    }
}

impl vstd::std_specs::convert::FromSpecImpl<AssociateType> for u32 {
    open spec fn obeys_from_spec() -> bool {
        true
    }

    open spec fn from_spec(v: AssociateType) -> u32 {
        v.spec_value()
    }
}

/// A public key of an associate, held in its serialized form (the algorithm tag, then the raw
/// key bytes), together with the two texts under which the registrar files it.
pub struct Associate {
    public_key: Vec<u8>,
    key_text: String,
    account: [u8; 32],
}

impl View for Associate {
    type V = Seq<u8>;

    /// The serialized public key.
    closed spec fn view(&self) -> Seq<u8> {
        self.public_key@
    }
}

impl Associate {
    #[verifier::type_invariant]
    spec fn well_formed(self) -> bool {
        &&& is_public_key(self.public_key@)
        &&& self.key_text@ == public_key_display(self.public_key@)
        &&& self.account@ == account_hash_of(self.public_key@)
    }

    /// The associate whose public key is serialized as `public_key`; `None` when the bytes are
    /// not a public key.
    pub fn from_public_key(public_key: Vec<u8>) -> (r: Option<Associate>)
        ensures
            r is Some <==> is_public_key(public_key@),
            r matches Some(a) ==> a@ == public_key@,
    {
        let key_text = match public_key_text(&public_key) {
            Some(t) => t,
            None => return None,
        };
        let account = match public_key_account_hash(&public_key) {
            Some(a) => a,
            None => return None,
        };
        Some(Associate { public_key, key_text, account })
    }

    /// The serialized public key.
    pub fn public_key(&self) -> (key: &Vec<u8>)
        ensures
            key@ == self@,
            is_public_key(self@),
    {
        proof {
            use_type_invariant(self);
        }
        &self.public_key
    }

    /// The text of the public key, under which the registrar files it.
    pub fn key_text(&self) -> (text: String)
        ensures
            text@ == public_key_display(self@),
    {
        proof {
            use_type_invariant(self);
        }
        self.key_text.clone()
    }

    /// The account hash of the public key.
    pub fn account_hash(&self) -> (account: [u8; 32])
        ensures
            account@ == account_hash_of(self@),
    {
        proof {
            use_type_invariant(self);
        }
        self.account
    }
}

/// What the `public_keys` dictionary holds for an item.
pub enum KeyRecord {
    AccountHash([u8; 32]),
    PublicKey(Vec<u8>),
}

/// A `KeyRecord` by its bytes.
pub enum KeyRecordView {
    AccountHash(Seq<u8>),
    PublicKey(Seq<u8>),
}

impl View for KeyRecord {
    type V = KeyRecordView;

    open spec fn view(&self) -> KeyRecordView {
        match self {
            KeyRecord::AccountHash(a) => KeyRecordView::AccountHash(a@),
            KeyRecord::PublicKey(k) => KeyRecordView::PublicKey(k@),
        }
    }
}

/// One write into the registrar's dictionaries.
pub enum RegistrarPut {
    /// Stores the number of a role under `item_key` in the `associates` dictionary.
    AssociationType { item_key: String, association_type: u32 },
    /// Stores a key record under `item_key` in the `public_keys` dictionary.
    KeyRecord { item_key: String, record: KeyRecord },
}

/// A `RegistrarPut` by the texts and bytes it holds.
pub enum PutView {
    AssociationType(Seq<char>, u32),
    KeyRecord(Seq<char>, KeyRecordView),
}

impl View for RegistrarPut {
    type V = PutView;

    open spec fn view(&self) -> PutView {
        match self {
            RegistrarPut::AssociationType { item_key, association_type } => PutView::AssociationType(
                item_key@,
                *association_type,
            ),
            RegistrarPut::KeyRecord { item_key, record } => PutView::KeyRecord(item_key@, record@),
        }
    }
}

/// The writes of a list, in order, by their views.
pub open spec fn puts_view(puts: Seq<RegistrarPut>) -> Seq<PutView> {
    puts.map_values(|p: RegistrarPut| p@)
}

/// A key record of a read, by its bytes.
pub open spec fn record_view(read: Option<KeyRecord>) -> Option<KeyRecordView> {
    match read {
        Some(r) => Some(r@),
        None => None,
    }
}

/// Why a read of the `public_keys` dictionary gives no answer of the kind asked for.
#[derive(Clone, Copy, Debug, PartialEq, Eq, Structural)]
pub enum RecordReadError {
    /// Nothing is stored under the item.
    Missing,
    /// The item holds the other kind of record.
    WrongRecord,
}

/// The account hash that a read of the `public_keys` dictionary answers.
pub open spec fn account_record(read: Option<KeyRecordView>) -> Result<Seq<u8>, RecordReadError> {
    match read {
        Some(KeyRecordView::AccountHash(h)) => Ok(h),
        Some(KeyRecordView::PublicKey(_)) => Err(RecordReadError::WrongRecord),
        None => Err(RecordReadError::Missing),
    }
}

/// The serialized public key that a read of the `public_keys` dictionary answers.
pub open spec fn public_key_record(read: Option<KeyRecordView>) -> Result<Seq<u8>, RecordReadError> {
    match read {
        Some(KeyRecordView::PublicKey(k)) => Ok(k),
        Some(KeyRecordView::AccountHash(_)) => Err(RecordReadError::WrongRecord),
        None => Err(RecordReadError::Missing),
    }
}

/// The two dictionaries of the registrar.
#[derive(Clone, Copy, Debug, PartialEq, Eq, Structural)]
pub enum RegistrarDictionary {
    Associates,
    PublicKeys,
}

/// One read from the registrar's dictionaries: the item `item_key` of `dictionary`.
pub struct DictionaryRead {
    pub dictionary: RegistrarDictionary,
    pub item_key: String,
}

/// The contents of the registrar's two dictionaries.
pub struct RegistrarStore {
    pub associates: Map<Seq<char>, u32>,
    pub public_keys: Map<Seq<char>, KeyRecordView>,
}

impl RegistrarStore {
    /// The dictionaries after the write `p`.
    pub open spec fn put(self, p: PutView) -> RegistrarStore {
        match p {
            PutView::AssociationType(k, t) => RegistrarStore {
                associates: self.associates.insert(k, t),
                public_keys: self.public_keys,
            },
            PutView::KeyRecord(k, r) => RegistrarStore {
                associates: self.associates,
                public_keys: self.public_keys.insert(k, r),
            },
        }
    }

    /// The dictionaries after the writes `ps`, first to last.
    pub open spec fn put_all(self, ps: Seq<PutView>) -> RegistrarStore
        decreases ps.len(),
    {
        if ps.len() == 0 {
            self
        } else {
            self.put_all(ps.drop_last()).put(ps.last())
        }
    }

    /// The role number that a lookup of `item_key` answers: the stored number, or 0 where
    /// nothing is stored.
    pub open spec fn association_type(self, item_key: Seq<char>) -> u32 {
        if self.associates.contains_key(item_key) {
            self.associates[item_key]
        } else {
            0
        }
    }
}

/// The text of the account hash of the public key serialized as `key`.
pub open spec fn account_text(key: Seq<u8>) -> Seq<char> {
    lower_hex(account_hash_of(key))
}

/// The writes that file the public key `key` with the role number `association`.
pub open spec fn store_puts(key: Seq<u8>, association: u32) -> Seq<PutView> {
    seq![
        PutView::AssociationType(account_text(key), association),
        PutView::AssociationType(public_key_display(key), association),
        PutView::KeyRecord(public_key_display(key), KeyRecordView::AccountHash(account_hash_of(key))),
        PutView::KeyRecord(account_text(key), KeyRecordView::PublicKey(key)),
    ]
}

/// The writes of a registration: the filing, where the key's text was found with role 0,
/// else none.
pub open spec fn register_puts(registered: u32, key: Seq<u8>, association: u32) -> Seq<PutView> {
    if registered == 0 {
        store_puts(key, association)
    } else {
        Seq::empty()
    }
}

/// The writes of a removal: role 0 under the account text and the key text, where the key's
/// text was found with a role other than 0, else none.
pub open spec fn unregister_puts(registered: u32, key: Seq<u8>) -> Seq<PutView> {
    if registered != 0 {
        seq![
            PutView::AssociationType(account_text(key), 0),
            PutView::AssociationType(public_key_display(key), 0),
        ]
    } else {
        Seq::empty()
    }
}

/// The writes that file each of `keys` as a partner, in order.
pub open spec fn init_puts(keys: Seq<Seq<u8>>) -> Seq<PutView>
    decreases keys.len(),
{
    if keys.len() == 0 {
        Seq::empty()
    } else {
        init_puts(keys.drop_last()) + store_puts(keys.last(), 1)
    }
}

/// The serialized keys of a list of associates.
pub open spec fn keys_view(associates: Seq<Associate>) -> Seq<Seq<u8>> {
    associates.map_values(|a: Associate| a@)
}

/// The registrar's two dictionaries, and its operations on them.
pub struct Associates {
    pub associates: DictionaryHandle,
    pub public_keys: DictionaryHandle,
}

impl Associates {
    /// The dictionaries that the named keys `associates` and `public_keys` refer to, given
    /// what the lookups of the two names found. They are checked in that order: a missing key
    /// is refused with `OpenAssociatesDictinonaryKey` or `OpenPublicKeyDictinonaryKey`, a key
    /// that is not a reference with `OpenAssociatesDictinonaryURef` or
    /// `OpenPublicKeyDictinonaryURef`.
    pub fn open(associates_key: Option<HostKey>, public_keys_key: Option<HostKey>) -> (r: Result<
        Associates,
        RegistrarError,
    >)
        ensures
            match spec_dictionary_handle(
                associates_key,
                RegistrarError::OpenAssociatesDictinonaryKey,
                RegistrarError::OpenAssociatesDictinonaryURef,
            ) {
                Err(e) => r == Err::<Associates, RegistrarError>(e),
                Ok((a, ar)) => match spec_dictionary_handle(
                    public_keys_key,
                    RegistrarError::OpenPublicKeyDictinonaryKey,
                    RegistrarError::OpenPublicKeyDictinonaryURef,
                ) {
                    Err(e) => r == Err::<Associates, RegistrarError>(e),
                    Ok((p, pr)) => r matches Ok(s) && s.associates.address@ == a
                        && s.associates.access_rights == ar && s.public_keys.address@ == p
                        && s.public_keys.access_rights == pr,
                },
            },
        (associates_key, public_keys_key) matches (Some(HostKey::URef(a, ar)), Some(HostKey::URef(p, pr)))
            ==> (r matches Ok(s) && s.associates.address == a && s.associates.access_rights == ar
            && s.public_keys.address == p && s.public_keys.access_rights == pr),
    {
        let associates = dictionary_handle(
            associates_key,
            RegistrarError::OpenAssociatesDictinonaryKey,
            RegistrarError::OpenAssociatesDictinonaryURef,
        )?;
        let public_keys = dictionary_handle(
            public_keys_key,
            RegistrarError::OpenPublicKeyDictinonaryKey,
            RegistrarError::OpenPublicKeyDictinonaryURef,
        )?;
        Ok(Associates { associates, public_keys })
    }

    /// The handle of one of the two dictionaries.
    pub fn dictionary(&self, dictionary: RegistrarDictionary) -> (h: DictionaryHandle)
        ensures
            h == (match dictionary {
                RegistrarDictionary::Associates => self.associates,
                RegistrarDictionary::PublicKeys => self.public_keys,
            }),
    {
        match dictionary {
            RegistrarDictionary::Associates => self.associates,
            RegistrarDictionary::PublicKeys => self.public_keys,
        }
    }

    /// The item that holds the account hash of `pubkey`.
    pub fn get_associate_account_by_pubkey(pubkey: &Associate) -> (read: DictionaryRead)
        ensures
            read.dictionary == RegistrarDictionary::PublicKeys,
            read.item_key@ == public_key_display(pubkey@),
    {
        DictionaryRead { dictionary: RegistrarDictionary::PublicKeys, item_key: pubkey.key_text() }
    }

    /// The item that holds the role number of `pubkey`.
    pub fn get_associate_type_by_pubkey(pubkey: &Associate) -> (read: DictionaryRead)
        ensures
            read.dictionary == RegistrarDictionary::Associates,
            read.item_key@ == public_key_display(pubkey@),
    {
        DictionaryRead { dictionary: RegistrarDictionary::Associates, item_key: pubkey.key_text() }
    }

    /// The item that holds the public key of the account `account_hash`.
    pub fn get_associate_pubkey_by_account(account_hash: [u8; 32]) -> (read: DictionaryRead)
        ensures
            read.dictionary == RegistrarDictionary::PublicKeys,
            read.item_key@ == lower_hex(account_hash@),
    {
        DictionaryRead {
            dictionary: RegistrarDictionary::PublicKeys,
            item_key: account_hash_text(account_hash),
        }
    }

    /// The item that holds the role number of the account `account_hash`.
    pub fn get_associate_type_by_account(account_hash: [u8; 32]) -> (read: DictionaryRead)
        ensures
            read.dictionary == RegistrarDictionary::Associates,
            read.item_key@ == lower_hex(account_hash@),
    {
        DictionaryRead {
            dictionary: RegistrarDictionary::Associates,
            item_key: account_hash_text(account_hash),
        }
    }

    /// The role number that a read of the `associates` dictionary answers: the stored number,
    /// or 0 where the item is absent.
    pub fn association_from_read(read: Option<u32>) -> (association: u32)
        ensures
            association == (match read {
                Some(v) => v,
                None => 0,
            }),
    {
        match read {
            Some(v) => v,
            None => 0,
        }
    }

    /// The account hash that the read made for `get_associate_account_by_pubkey` answers: the
    /// stored hash; an absent item is refused with `Missing` (the host reverts), an item that
    /// holds a public key with `WrongRecord`.
    pub fn account_from_read(read: Option<KeyRecord>) -> (account: Result<[u8; 32], RecordReadError>)
        ensures
            match account_record(record_view(read)) {
                Ok(h) => account matches Ok(a) && a@ == h,
                Err(e) => account == Err::<[u8; 32], RecordReadError>(e),
            },
    {
        match read {
            Some(KeyRecord::AccountHash(h)) => Ok(h),
            Some(KeyRecord::PublicKey(_)) => Err(RecordReadError::WrongRecord),
            None => Err(RecordReadError::Missing),
        }
    }

    /// The serialized public key that the read made for `get_associate_pubkey_by_account`
    /// answers: the stored key; an absent item is refused with `Missing` (the host reverts), an
    /// item that holds an account hash with `WrongRecord`.
    pub fn public_key_from_read(read: Option<KeyRecord>) -> (public_key: Result<Vec<u8>, RecordReadError>)
        ensures
            match public_key_record(record_view(read)) {
                Ok(k) => public_key matches Ok(v) && v@ == k,
                Err(e) => public_key == Err::<Vec<u8>, RecordReadError>(e),
            },
    {
        match read {
            Some(KeyRecord::PublicKey(k)) => Ok(k),
            Some(KeyRecord::AccountHash(_)) => Err(RecordReadError::WrongRecord),
            None => Err(RecordReadError::Missing),
        }
    }

    /// The writes that file `pubkey` with the role `association_type`: the role under the
    /// account text and under the key text, the account hash under the key text, and the key
    /// under the account text.
    pub fn store_associate(pubkey: &Associate, association_type: AssociateType) -> (puts: Vec<
        RegistrarPut,
    >)
        ensures
            puts_view(puts@) == store_puts(pubkey@, association_type.spec_value()),
    {
        let account = pubkey.account_hash();
        let account_text = account_hash_text(account);
        let value: u32 = association_type.into();
        let mut puts: Vec<RegistrarPut> = Vec::new();
        puts.push(
            RegistrarPut::AssociationType {
                item_key: account_text.clone(),
                association_type: value,
            },
        );
        puts.push(
            RegistrarPut::AssociationType { item_key: pubkey.key_text(), association_type: value },
        );
        puts.push(
            RegistrarPut::KeyRecord {
                item_key: pubkey.key_text(),
                record: KeyRecord::AccountHash(account),
            },
        );
        puts.push(
            RegistrarPut::KeyRecord {
                item_key: account_text,
                record: KeyRecord::PublicKey(pubkey.public_key().clone()),
            },
        );
        assert(puts_view(puts@) =~= store_puts(pubkey@, association_type.spec_value()));
        puts
    }

    /// The writes that file each of `partners` as a partner, in order.
    pub fn init(partners: &Vec<Associate>) -> (puts: Vec<RegistrarPut>)
        ensures
            puts_view(puts@) == init_puts(keys_view(partners@)),
    {
        let mut puts: Vec<RegistrarPut> = Vec::new();
        let mut i: usize = 0;
        while i < partners.len()
            invariant
                i <= partners.len(),
                puts_view(puts@) == init_puts(keys_view(partners@.take(i as int))),
            decreases partners.len() - i,
        {
            let mut filing = Self::store_associate(&partners[i], AssociateType::Partner);
            let ghost before = puts@;
            let ghost added = filing@;
            puts.append(&mut filing);
            proof {
                let keys = keys_view(partners@.take(i + 1));
                assert(keys.drop_last() =~= keys_view(partners@.take(i as int)));
                assert(keys.last() == partners@[i as int]@);
                assert(puts@ =~= before + added);
                assert(puts_view(before + added) =~= puts_view(before) + puts_view(added));
            }
            i = i + 1;
        }
        assert(partners@.take(partners@.len() as int) =~= partners@);
        puts
    }

    /// The writes of a registration of `pubkey` with `association_type`, given the role number
    /// `registered` that the lookup of `pubkey` answered: the filing where it is 0, else none.
    pub fn register(registered: u32, pubkey: &Associate, association_type: AssociateType) -> (puts:
        Vec<RegistrarPut>)
        ensures
            puts_view(puts@) == register_puts(registered, pubkey@, association_type.spec_value()),
    {
        if 0 == registered {
            Self::store_associate(pubkey, association_type)
        } else {
            let puts: Vec<RegistrarPut> = Vec::new();
            assert(puts_view(puts@) =~= Seq::empty());
            puts
        }
    }

    /// The writes of a removal of `pubkey`, given the role number `registered` that the lookup
    /// of `pubkey` answered: role 0 under its account text and its key text where it is not 0,
    /// else none.
    pub fn unregister(registered: u32, pubkey: &Associate) -> (puts: Vec<RegistrarPut>)
        ensures
            puts_view(puts@) == unregister_puts(registered, pubkey@),
    {
        let mut puts: Vec<RegistrarPut> = Vec::new();
        if 0 != registered {
            let associate_account = pubkey.account_hash();
            let not_member: u32 = AssociateType::NotMember.into();
            puts.push(
                RegistrarPut::AssociationType {
                    item_key: account_hash_text(associate_account),
                    association_type: not_member,
                },
            );
            puts.push(
                RegistrarPut::AssociationType {
                    item_key: pubkey.key_text(),
                    association_type: not_member,
                },
            );
        }
        assert(puts_view(puts@) =~= unregister_puts(registered, pubkey@));
        puts
    }
}

} // verus!
