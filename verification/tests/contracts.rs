use std::collections::HashMap;

use casper_types::bytesrepr::ToBytes;
use casper_types::{ApiError, AsymmetricType, Key, PublicKey, SecretKey};

use notary_contracts::entry_points::{Access, ClType, EntryPoint, EntryPointType};
use notary_contracts::keys::{dictionary_handle, HostKey};
use notary_contracts::meta_check::check_document_meta;
use notary_contracts::notarizer;
use notary_contracts::notarizer::contract::{registrar_hash, stored_registrar, RegistrarLocation};
use notary_contracts::notarizer::documents::{DocumentPut, Documents};
use notary_contracts::registrar;
use notary_contracts::notarizer::associate_type::AssociateType as Role;
use notary_contracts::notarizer::contract::{can_have_access, get_document_meta, get_registrar, notarize_document};
use notary_contracts::notarizer::error::NotarizerError;
use notary_contracts::registrar::error::RegistrarError;
use notary_contracts::registrar::associates::{
    Associate, AssociateType, Associates, DictionaryRead, KeyRecord, RecordReadError,
    RegistrarDictionary, RegistrarPut,
};

const OPERATOR: [u8; 32] = [6u8; 32];
const USER: [u8; 32] = [3u8; 32];

fn public_key(secret: [u8; 32]) -> PublicKey {
    (&SecretKey::ed25519_from_bytes(secret).unwrap()).into()
}

fn associate(key: &PublicKey) -> Associate {
    Associate::from_public_key(key.to_bytes().unwrap()).unwrap()
}

fn revert(code: u16) -> ! {
    panic!("{:?}", ApiError::User(code))
}

fn host_key(key: &Key) -> HostKey {
    match key {
        Key::Hash(hash) => HostKey::Hash(*hash),
        Key::URef(uref) => HostKey::URef(uref.addr(), uref.access_rights().bits()),
        _ => HostKey::Other,
    }
}

/// The global state of a chain on which the registrar and the notarizer are installed: the
/// contents of their dictionaries, and the named key of the notarizer.
struct RegistrarAndNotarizer {
    associates: HashMap<String, u32>,
    public_keys: HashMap<String, KeyRecord>,
    documents: HashMap<String, Option<Vec<String>>>,
    registrar_package: [u8; 32],
    notarizer_registrar: [u8; 32],
    operator: [u8; 32],
    operator_key: PublicKey,
    user: [u8; 32],
    user_key: PublicKey,
}

impl RegistrarAndNotarizer {
    fn deploy(mut partners: Vec<PublicKey>) -> Self {
        let operator_key = public_key(OPERATOR);
        let user_key = public_key(USER);
        partners.push(operator_key.clone());
        let mut chain = RegistrarAndNotarizer {
            associates: HashMap::new(),
            public_keys: HashMap::new(),
            documents: HashMap::new(),
            registrar_package: [42u8; 32],
            notarizer_registrar: [0u8; 32],
            operator: operator_key.to_account_hash().value(),
            operator_key,
            user: user_key.to_account_hash().value(),
            user_key,
        };
        let partners: Vec<Associate> = partners.iter().map(associate).collect();
        chain.apply(Associates::init(&partners));
        chain.notarizer_registrar = registrar_hash(HostKey::Hash(chain.registrar_package));
        chain
    }

    fn apply(&mut self, puts: Vec<RegistrarPut>) {
        for put in puts {
            match put {
                RegistrarPut::AssociationType { item_key, association_type } => {
                    self.associates.insert(item_key, association_type);
                }
                RegistrarPut::KeyRecord { item_key, record } => {
                    self.public_keys.insert(item_key, record);
                }
            }
        }
    }

    fn read_type(&self, read: DictionaryRead) -> u32 {
        assert_eq!(read.dictionary, RegistrarDictionary::Associates);
        Associates::association_from_read(self.associates.get(&read.item_key).copied())
    }

    fn registrar_register(&mut self, caller: [u8; 32], key: PublicKey, associate_type: u32) {
        if let Err(code) = self.try_registrar_register(caller, key, associate_type) {
            revert(code);
        }
    }

    fn try_registrar_register(&mut self, _caller: [u8; 32], key: PublicKey, associate_type: u32) -> Result<(), u16> {
        let association = AssociateType::from(associate_type).map_err(|e| e.code())?;
        let pubkey = associate(&key);
        let registered = self.read_type(Associates::get_associate_type_by_pubkey(&pubkey));
        let puts = Associates::register(registered, &pubkey, association);
        self.apply(puts);
        Ok(())
    }

    fn registrar_unregister(&mut self, _caller: [u8; 32], key: PublicKey) {
        let pubkey = associate(&key);
        let registered = self.read_type(Associates::get_associate_type_by_pubkey(&pubkey));
        let puts = Associates::unregister(registered, &pubkey);
        self.apply(puts);
    }

    fn caller_association(&self, caller: [u8; 32]) -> u32 {
        self.read_type(Associates::get_associate_type_by_account(caller))
    }

    fn notarize_document(&mut self, caller: [u8; 32], document_hash: Key, meta: Option<Vec<String>>) {
        let association = self.caller_association(caller);
        if let Err(e) = notarizer::contract::notarize_document_access(association) {
            revert(e.code());
        }
        match notarize_document(association, &host_key(&document_hash), meta) {
            Ok(DocumentPut { item_key, document_meta }) => {
                self.documents.insert(item_key, document_meta);
            }
            Err(e) => revert(e.code()),
        }
    }

    fn get_document_meta(&self, caller: [u8; 32], document_hash: Key) -> Result<Option<Vec<String>>, u16> {
        let association = self.caller_association(caller);
        match get_document_meta(association, &host_key(&document_hash)) {
            Ok(item_key) => Ok(Documents::meta_from_read(self.documents.get(&item_key).cloned())),
            Err(e) => Err(e.code()),
        }
    }

    fn test_get_document_meta(&self, caller: [u8; 32], document_hash: Key, expected: Option<Vec<String>>) {
        let ret = match self.get_document_meta(caller, document_hash) {
            Ok(ret) => ret,
            Err(code) => revert(code),
        };
        if let Err(code) = check_document_meta(&ret, &expected) {
            revert(code);
        }
    }
}

fn sample_meta() -> Option<Vec<String>> {
    Some(vec!["full_1_hash".to_string(), "partner_deployer".to_string(), "test".to_string()])
}

#[test]
fn test_deploys() {
    let contracts = RegistrarAndNotarizer::deploy(Vec::new());
    assert_eq!(contracts.caller_association(contracts.operator), 1);
    assert_eq!(contracts.notarizer_registrar, contracts.registrar_package);
    let registrar_eps = registrar::contract::get_entry_points();
    assert_eq!(registrar_eps.len(), 5);
    let notarizer_eps = notarizer::contract::entry_points();
    assert_eq!(notarizer_eps.len(), 3);
}

#[test]
fn test_deployer_partner_user() {
    let mut contracts = RegistrarAndNotarizer::deploy(Vec::new());
    contracts.notarize_document(contracts.operator, Key::Hash([1u8; 32]), sample_meta());
    contracts.test_get_document_meta(contracts.operator, Key::Hash([1u8; 32]), sample_meta());
}

#[test]
fn test_registered_user() {
    let mut contracts = RegistrarAndNotarizer::deploy(Vec::new());
    contracts.registrar_register(contracts.operator, contracts.user_key.clone(), 2);
    contracts.notarize_document(contracts.user, Key::Hash([1u8; 32]), sample_meta());
    contracts.test_get_document_meta(contracts.user, Key::Hash([1u8; 32]), sample_meta());
}

#[test]
#[should_panic = "ApiError::User(150)"]
fn test_notregistered_user() {
    let mut contracts = RegistrarAndNotarizer::deploy(Vec::new());
    // Only associates that have been registered gain access
    contracts.notarize_document(contracts.user, Key::Hash([1u8; 32]), sample_meta());
}

#[test]
#[should_panic = "ApiError::User(150)"]
fn test_unregistered_user() {
    let mut contracts = RegistrarAndNotarizer::deploy(Vec::new());
    contracts.registrar_register(contracts.operator, contracts.user_key.clone(), 2);
    contracts.registrar_unregister(contracts.operator, contracts.user_key.clone());
    // Users whose registration have been removed cannot make changes
    contracts.notarize_document(contracts.user, Key::Hash([1u8; 32]), sample_meta());
}

fn hex(bytes: &[u8]) -> String {
    bytes.iter().map(|b| format!("{:02x}", b)).collect()
}

#[test]
fn associate_texts_follow_the_public_key() {
    let key = public_key(USER);
    let a = associate(&key);
    let raw: Vec<u8> = Vec::<u8>::from(&key);
    let expected = format!("PubKey::Ed25519({}..{})", hex(&raw[..2]), hex(&raw[30..]));
    assert_eq!(a.key_text(), expected);
    assert_eq!(a.key_text(), key.to_string());
    assert_eq!(a.account_hash(), key.to_account_hash().value());
    assert_eq!(a.public_key(), &key.to_bytes().unwrap());
}

#[test]
fn system_key_text_is_padded() {
    let a = Associate::from_public_key(vec![0u8]).unwrap();
    assert_eq!(a.key_text(), "PubKey::System(          )");
    assert_eq!(a.account_hash(), PublicKey::system().to_account_hash().value());
}

#[test]
fn secp256k1_key_text_is_abbreviated() {
    let secret = SecretKey::secp256k1_from_bytes([5u8; 32]).unwrap();
    let key: PublicKey = (&secret).into();
    let a = associate(&key);
    let raw: Vec<u8> = Vec::<u8>::from(&key);
    assert_eq!(raw.len(), 33);
    let expected = format!("PubKey::Secp256k1({}..{})", hex(&raw[..2]), hex(&raw[31..]));
    assert_eq!(a.key_text(), expected);
}

#[test]
fn invalid_public_keys_are_refused() {
    assert!(Associate::from_public_key(vec![]).is_none());
    assert!(Associate::from_public_key(vec![9u8]).is_none());
    assert!(Associate::from_public_key(vec![1u8, 2, 3]).is_none());
    let mut extra = public_key(USER).to_bytes().unwrap();
    extra.push(0);
    assert!(Associate::from_public_key(extra).is_none());
}

#[test]
fn account_items_are_lowercase_hex() {
    let mut account = [0xabu8; 32];
    account[0] = 0x01;
    account[31] = 0xf0;
    let read = Associates::get_associate_type_by_account(account);
    assert_eq!(read.dictionary, RegistrarDictionary::Associates);
    assert_eq!(read.item_key, format!("01{}f0", "ab".repeat(30)));
    let read = Associates::get_associate_pubkey_by_account(account);
    assert_eq!(read.dictionary, RegistrarDictionary::PublicKeys);
    assert_eq!(read.item_key, format!("01{}f0", "ab".repeat(30)));
}

#[test]
fn pubkey_items_use_the_key_text() {
    let key = public_key(OPERATOR);
    let a = associate(&key);
    let read = Associates::get_associate_type_by_pubkey(&a);
    assert_eq!(read.dictionary, RegistrarDictionary::Associates);
    assert_eq!(read.item_key, key.to_string());
    let read = Associates::get_associate_account_by_pubkey(&a);
    assert_eq!(read.dictionary, RegistrarDictionary::PublicKeys);
    assert_eq!(read.item_key, key.to_string());
}

#[test]
fn missing_association_reads_as_not_member() {
    assert_eq!(Associates::association_from_read(None), 0);
    assert_eq!(Associates::association_from_read(Some(3)), 3);
}

#[test]
fn store_associate_writes_four_items_in_order() {
    let key = public_key(USER);
    let a = associate(&key);
    let account = key.to_account_hash().value();
    let puts = Associates::store_associate(&a, AssociateType::Lawyer);
    assert_eq!(puts.len(), 4);
    match &puts[0] {
        RegistrarPut::AssociationType { item_key, association_type } => {
            assert_eq!(item_key, &hex(&account));
            assert_eq!(*association_type, 3);
        }
        _ => panic!("first write is a role"),
    }
    match &puts[1] {
        RegistrarPut::AssociationType { item_key, association_type } => {
            assert_eq!(item_key, &key.to_string());
            assert_eq!(*association_type, 3);
        }
        _ => panic!("second write is a role"),
    }
    match &puts[2] {
        RegistrarPut::KeyRecord { item_key, record: KeyRecord::AccountHash(h) } => {
            assert_eq!(item_key, &key.to_string());
            assert_eq!(h, &account);
        }
        _ => panic!("third write links the key to its account"),
    }
    match &puts[3] {
        RegistrarPut::KeyRecord { item_key, record: KeyRecord::PublicKey(k) } => {
            assert_eq!(item_key, &hex(&account));
            assert_eq!(k, &key.to_bytes().unwrap());
        }
        _ => panic!("fourth write links the account to its key"),
    }
}

#[test]
fn register_of_a_member_writes_nothing() {
    let a = associate(&public_key(USER));
    assert!(Associates::register(1, &a, AssociateType::Clerk).is_empty());
    assert_eq!(Associates::register(0, &a, AssociateType::Clerk).len(), 4);
}

#[test]
fn unregister_of_a_non_member_writes_nothing() {
    let key = public_key(USER);
    let a = associate(&key);
    assert!(Associates::unregister(0, &a).is_empty());
    let puts = Associates::unregister(2, &a);
    assert_eq!(puts.len(), 2);
    match (&puts[0], &puts[1]) {
        (
            RegistrarPut::AssociationType { item_key: k0, association_type: t0 },
            RegistrarPut::AssociationType { item_key: k1, association_type: t1 },
        ) => {
            assert_eq!(k0, &hex(&key.to_account_hash().value()));
            assert_eq!(k1, &key.to_string());
            assert_eq!((*t0, *t1), (0, 0));
        }
        _ => panic!("a removal writes two roles"),
    }
}

#[test]
fn register_then_unregister_round() {
    let mut chain = RegistrarAndNotarizer::deploy(Vec::new());
    let user = chain.user;
    let user_key = chain.user_key.clone();
    assert_eq!(chain.caller_association(user), 0);
    chain.registrar_register(chain.operator, user_key.clone(), 4);
    assert_eq!(chain.caller_association(user), 4);
    assert_eq!(chain.read_type(Associates::get_associate_type_by_pubkey(&associate(&user_key))), 4);
    // A second registration keeps the first role.
    chain.registrar_register(chain.operator, user_key.clone(), 2);
    assert_eq!(chain.caller_association(user), 4);
    chain.registrar_unregister(chain.operator, user_key.clone());
    assert_eq!(chain.caller_association(user), 0);
    assert_eq!(chain.read_type(Associates::get_associate_type_by_pubkey(&associate(&user_key))), 0);
    // The links between key and account stay.
    assert!(chain.public_keys.contains_key(&user_key.to_string()));
    assert!(chain.public_keys.contains_key(&hex(&user)));
    // The operator stays a partner.
    assert_eq!(chain.caller_association(chain.operator), 1);
}

#[test]
fn init_files_every_partner() {
    let extra = public_key([8u8; 32]);
    let chain = RegistrarAndNotarizer::deploy(vec![extra.clone()]);
    assert_eq!(chain.caller_association(extra.to_account_hash().value()), 1);
    assert_eq!(chain.caller_association(chain.operator), 1);
    assert_eq!(chain.caller_association(chain.user), 0);
    assert_eq!(chain.associates.len(), 4);
    assert_eq!(chain.public_keys.len(), 4);
    let _ = &chain.operator_key;
}

#[test]
fn register_with_unknown_role_reverts() {
    let mut chain = RegistrarAndNotarizer::deploy(Vec::new());
    let user_key = chain.user_key.clone();
    assert_eq!(chain.try_registrar_register(chain.operator, user_key, 5), Err(0));
    assert_eq!(chain.caller_association(chain.user), 0);
}

#[test]
fn registrar_roles_and_numbers() {
    assert_eq!(AssociateType::from(0).unwrap(), AssociateType::NotMember);
    assert_eq!(AssociateType::from(1).unwrap(), AssociateType::Partner);
    assert_eq!(AssociateType::from(2).unwrap(), AssociateType::Judge);
    assert_eq!(AssociateType::from(3).unwrap(), AssociateType::Lawyer);
    assert_eq!(AssociateType::from(4).unwrap(), AssociateType::Clerk);
    assert_eq!(AssociateType::from(5), Err(RegistrarError::AssociateTypeNonExistant));
    assert_eq!(AssociateType::from(u32::MAX).unwrap_err().code(), 0);
    for u in 0..5u32 {
        assert_eq!(u32::from(AssociateType::from(u).unwrap()), u);
    }
}

#[test]
fn notarizer_roles_and_numbers() {
    assert_eq!(Role::from(2).unwrap(), Role::Judge);
    assert_eq!(Role::from(7), Err(NotarizerError::AssociateTypeNonExistant));
    assert_eq!(Role::from(7).unwrap_err().code(), 100);
    for u in 0..5u32 {
        assert_eq!(u32::from(Role::from(u).unwrap()), u);
    }
}

#[test]
fn registrar_error_codes() {
    let codes: Vec<u16> = [
        RegistrarError::AssociateTypeNonExistant,
        RegistrarError::InitAssociatesDictionary,
        RegistrarError::InitPublicKeyDictionary,
        RegistrarError::OpenAssociatesDictinonaryKey,
        RegistrarError::OpenAssociatesDictinonaryURef,
        RegistrarError::OpenPublicKeyDictinonaryKey,
        RegistrarError::OpenPublicKeyDictinonaryURef,
        RegistrarError::ConstructorGroupCreation,
        RegistrarError::ConstructorGroupPopEmpty,
        RegistrarError::ConstructorGroupRemove,
    ]
    .iter()
    .map(|e| e.code())
    .collect();
    assert_eq!(codes, vec![0, 10, 11, 20, 21, 22, 23, 30, 31, 32]);
}

#[test]
fn notarizer_error_codes() {
    let codes: Vec<u16> = [
        NotarizerError::AssociateTypeNonExistant,
        NotarizerError::InitDocumentsDictionaryURef,
        NotarizerError::InitSubmitterDictionaryURef,
        NotarizerError::OpenDocumentsDictionaryKey,
        NotarizerError::OpenSubmitterDictionaryKey,
        NotarizerError::OpenDocumentsDictionaryURef,
        NotarizerError::OpenSubmitterDictionaryURef,
        NotarizerError::NotarizeDocumentKeyNotHash,
        NotarizerError::GetDocumentMetaKeyNotHash,
        NotarizerError::NotarizeDocumentNoAccess,
        NotarizerError::GetDocumentMetaNoAccessRights,
        NotarizerError::GetRegistrarKeyNotFound,
        NotarizerError::GetRegistrarReadError,
        NotarizerError::GetRegistrarReadNotFound,
        NotarizerError::GetRegistrarKeyNotURef,
        NotarizerError::ConstructorGroupCreation,
        NotarizerError::ConstructorGroupPopEmpty,
        NotarizerError::ConstructorGroupRemove,
    ]
    .iter()
    .map(|e| e.code())
    .collect();
    assert_eq!(
        codes,
        vec![100, 110, 111, 120, 121, 122, 123, 130, 140, 150, 160, 170, 171, 172, 173, 180, 181, 182]
    );
}

#[test]
fn access_follows_the_role() {
    assert_eq!(can_have_access(0), Ok(false));
    for u in 1..5u32 {
        assert_eq!(can_have_access(u), Ok(true));
    }
    assert_eq!(can_have_access(5), Err(NotarizerError::AssociateTypeNonExistant));
}

#[test]
fn document_items_are_base64_of_the_hash() {
    let item = Documents::get_document_meta(&HostKey::Hash([1u8; 32])).ok().unwrap();
    assert_eq!(item, format!("{}AQE=", "AQEB".repeat(10)));
    let mut hash = [0u8; 32];
    hash[0] = 0xfb;
    hash[1] = 0xff;
    hash[2] = 0xbf;
    hash[31] = 0x3e;
    let item = Documents::get_document_meta(&HostKey::Hash(hash)).ok().unwrap();
    assert_eq!(item, format!("+/+/{}AD4=", "AAAA".repeat(9)));
}

#[test]
fn documents_refuse_keys_that_are_not_hashes() {
    assert_eq!(Documents::get_document_meta(&HostKey::Other).err(), Some(NotarizerError::GetDocumentMetaKeyNotHash));
    assert_eq!(
        Documents::notarize_document(&HostKey::URef([0u8; 32], 7), None).err().map(|e| e.code()),
        Some(130)
    );
    let put = Documents::notarize_document(&HostKey::Hash([1u8; 32]), sample_meta()).ok().unwrap();
    assert_eq!(put.document_meta, sample_meta());
    assert_eq!(Documents::meta_from_read(None), None);
    assert_eq!(Documents::meta_from_read(Some(sample_meta())), sample_meta());
    assert_eq!(Documents::meta_from_read(Some(None)), None);
}

#[test]
fn entry_point_checks_access_before_the_key() {
    assert_eq!(notarize_document(0, &HostKey::Other, None).err(), Some(NotarizerError::NotarizeDocumentNoAccess));
    assert_eq!(notarize_document(9, &HostKey::Other, None).err(), Some(NotarizerError::AssociateTypeNonExistant));
    assert_eq!(notarize_document(2, &HostKey::Other, None).err(), Some(NotarizerError::NotarizeDocumentKeyNotHash));
    assert_eq!(get_document_meta(0, &HostKey::Other).err(), Some(NotarizerError::GetDocumentMetaNoAccessRights));
    assert_eq!(get_document_meta(1, &HostKey::Other).err(), Some(NotarizerError::GetDocumentMetaKeyNotHash));
    assert!(get_document_meta(1, &HostKey::Hash([0u8; 32])).is_ok());
}

#[test]
fn unregistered_reader_reverts() {
    let chain = RegistrarAndNotarizer::deploy(Vec::new());
    assert_eq!(chain.get_document_meta(chain.user, Key::Hash([1u8; 32])), Err(160));
}

#[test]
fn unknown_document_reads_as_none() {
    let chain = RegistrarAndNotarizer::deploy(Vec::new());
    assert_eq!(chain.get_document_meta(chain.operator, Key::Hash([2u8; 32])), Ok(None));
}

#[test]
fn renotarizing_replaces_the_metadata() {
    let mut chain = RegistrarAndNotarizer::deploy(Vec::new());
    chain.notarize_document(chain.operator, Key::Hash([1u8; 32]), sample_meta());
    chain.notarize_document(chain.operator, Key::Hash([2u8; 32]), Some(vec!["other".to_string()]));
    chain.notarize_document(chain.operator, Key::Hash([1u8; 32]), None);
    assert_eq!(chain.get_document_meta(chain.operator, Key::Hash([1u8; 32])), Ok(None));
    assert_eq!(chain.get_document_meta(chain.operator, Key::Hash([2u8; 32])), Ok(Some(vec!["other".to_string()])));
}

#[test]
fn registrar_location_by_kind_of_key() {
    assert!(matches!(get_registrar(Some(HostKey::Hash([4u8; 32]))), Ok(RegistrarLocation::Package(h)) if h == [4u8; 32]));
    assert!(matches!(get_registrar(Some(HostKey::URef([5u8; 32], 7))), Ok(RegistrarLocation::Stored(a, 7)) if a == [5u8; 32]));
    assert_eq!(get_registrar(None).err(), Some(NotarizerError::GetRegistrarKeyNotFound));
    assert_eq!(get_registrar(Some(HostKey::Other)).err(), Some(NotarizerError::GetRegistrarKeyNotURef));
    assert_eq!(registrar_hash(HostKey::Hash([4u8; 32])), [4u8; 32]);
    assert_eq!(registrar_hash(HostKey::Other), [0u8; 32]);
    assert_eq!(registrar_hash(HostKey::URef([4u8; 32], 1)), [0u8; 32]);
}

fn describe(ep: &EntryPoint) -> (String, Vec<String>, bool) {
    let params = ep.parameters.iter().map(|p| p.name.clone()).collect();
    let public = matches!(ep.access, Access::Public);
    (ep.name.clone(), params, public)
}

#[test]
fn registrar_entry_points_are_listed() {
    let eps = registrar::contract::get_entry_points();
    let described: Vec<_> = eps.iter().map(describe).collect();
    assert_eq!(described[0], ("constructor".to_string(), vec!["partners".to_string()], false));
    assert_eq!(
        described[1],
        ("register".to_string(), vec!["associate_public_key".to_string(), "associate_type".to_string()], true)
    );
    assert_eq!(described[2], ("unregister".to_string(), vec!["associate_public_key".to_string()], true));
    assert_eq!(described[3], ("get_caller_association".to_string(), vec![], true));
    assert_eq!(described[4], ("get_associate_type".to_string(), vec!["associate_public_key".to_string()], true));
    match &eps[0].access {
        Access::Groups(groups) => assert_eq!(groups, &vec!["constructor".to_string()]),
        Access::Public => panic!("the constructor is not public"),
    }
    assert!(matches!(eps[0].parameters[0].cl_type, ClType::List(ref t) if matches!(**t, ClType::PublicKey)));
    assert!(matches!(eps[3].ret, ClType::U32));
}

#[test]
fn notarizer_entry_points_are_listed() {
    let eps = notarizer::contract::entry_points();
    let described: Vec<_> = eps.iter().map(describe).collect();
    assert_eq!(described[0], ("constructor".to_string(), vec![], false));
    assert_eq!(
        described[1],
        ("notarize_document".to_string(), vec!["document_hash".to_string(), "document_meta".to_string()], true)
    );
    assert_eq!(described[2], ("get_document_meta".to_string(), vec!["document_hash".to_string()], true));
    assert!(matches!(eps[2].ret, ClType::List(ref t) if matches!(**t, ClType::String)));
}

#[test]
fn document_meta_check() {
    assert_eq!(check_document_meta(&None, &None), Ok(()));
    assert_eq!(check_document_meta(&sample_meta(), &sample_meta()), Ok(()));
    assert_eq!(check_document_meta(&sample_meta(), &None), Err(900));
    assert_eq!(check_document_meta(&None, &Some(vec![])), Err(900));
    assert_eq!(check_document_meta(&Some(vec!["a".to_string()]), &Some(vec!["b".to_string()])), Err(900));
    assert_eq!(check_document_meta(&Some(vec!["a".to_string()]), &Some(vec!["a".to_string(), "b".to_string()])), Err(900));
}

#[test]
fn registrar_opens_its_dictionaries_in_order() {
    let a = Some(HostKey::URef([1u8; 32], 7));
    let p = Some(HostKey::URef([2u8; 32], 3));
    let opened = Associates::open(a, p).ok().unwrap();
    assert_eq!(opened.dictionary(RegistrarDictionary::Associates).address, [1u8; 32]);
    assert_eq!(opened.associates.access_rights, 7);
    assert_eq!(opened.dictionary(RegistrarDictionary::PublicKeys).address, [2u8; 32]);
    assert_eq!(opened.public_keys.access_rights, 3);
    assert_eq!(Associates::open(None, None).err(), Some(RegistrarError::OpenAssociatesDictinonaryKey));
    assert_eq!(Associates::open(Some(HostKey::Other), None).err(), Some(RegistrarError::OpenAssociatesDictinonaryURef));
    assert_eq!(Associates::open(a, None).err(), Some(RegistrarError::OpenPublicKeyDictinonaryKey));
    assert_eq!(Associates::open(a, Some(HostKey::Hash([0u8; 32]))).err(), Some(RegistrarError::OpenPublicKeyDictinonaryURef));
}

#[test]
fn notarizer_opens_its_dictionaries_in_order() {
    let d = Some(HostKey::URef([1u8; 32], 7));
    let s = Some(HostKey::URef([2u8; 32], 3));
    let opened = Documents::open(d, s).ok().unwrap();
    assert_eq!(opened.document.address, [1u8; 32]);
    assert_eq!(opened.submitter.address, [2u8; 32]);
    assert_eq!(opened.submitter.access_rights, 3);
    assert_eq!(Documents::open(None, s).err().map(|e| e.code()), Some(120));
    assert_eq!(Documents::open(Some(HostKey::Other), s).err().map(|e| e.code()), Some(122));
    assert_eq!(Documents::open(d, None).err().map(|e| e.code()), Some(121));
    assert_eq!(Documents::open(d, Some(HostKey::Hash([5u8; 32]))).err().map(|e| e.code()), Some(123));
    assert_eq!(dictionary_handle(Some(HostKey::URef([9u8; 32], 1)), 1u8, 2u8).ok().unwrap().address, [9u8; 32]);
}

#[test]
fn accounts_are_filed_apart() {
    let one = Associates::get_associate_type_by_account([1u8; 32]).item_key;
    let other = Associates::get_associate_type_by_account([2u8; 32]).item_key;
    assert_ne!(one, other);
    let doc_one = Documents::get_document_meta(&HostKey::Hash([1u8; 32])).ok().unwrap();
    let doc_other = Documents::get_document_meta(&HostKey::Hash([2u8; 32])).ok().unwrap();
    assert_ne!(doc_one, doc_other);
}

#[test]
fn key_records_read_back_after_filing() {
    let chain = RegistrarAndNotarizer::deploy(Vec::new());
    let key = chain.operator_key.clone();
    let a = associate(&key);
    let read = Associates::get_associate_account_by_pubkey(&a);
    let record = match chain.public_keys.get(&read.item_key) {
        Some(KeyRecord::AccountHash(h)) => Some(KeyRecord::AccountHash(*h)),
        Some(KeyRecord::PublicKey(k)) => Some(KeyRecord::PublicKey(k.clone())),
        None => None,
    };
    assert_eq!(Associates::account_from_read(record), Ok(key.to_account_hash().value()));
    let read = Associates::get_associate_pubkey_by_account(chain.operator);
    let record = match chain.public_keys.get(&read.item_key) {
        Some(KeyRecord::AccountHash(h)) => Some(KeyRecord::AccountHash(*h)),
        Some(KeyRecord::PublicKey(k)) => Some(KeyRecord::PublicKey(k.clone())),
        None => None,
    };
    assert_eq!(Associates::public_key_from_read(record), Ok(key.to_bytes().unwrap()));
}

#[test]
fn key_record_reads_refuse_absent_and_other_records() {
    assert_eq!(Associates::account_from_read(None), Err(RecordReadError::Missing));
    assert_eq!(Associates::account_from_read(Some(KeyRecord::PublicKey(vec![0u8]))), Err(RecordReadError::WrongRecord));
    assert_eq!(Associates::account_from_read(Some(KeyRecord::AccountHash([7u8; 32]))), Ok([7u8; 32]));
    assert_eq!(Associates::public_key_from_read(None), Err(RecordReadError::Missing));
    assert_eq!(Associates::public_key_from_read(Some(KeyRecord::AccountHash([7u8; 32]))), Err(RecordReadError::WrongRecord));
    assert_eq!(Associates::public_key_from_read(Some(KeyRecord::PublicKey(vec![1u8, 2]))), Ok(vec![1u8, 2]));
}

#[test]
fn stored_registrar_reads() {
    assert_eq!(stored_registrar(Ok(Some([3u8; 32]))), Ok([3u8; 32]));
    assert_eq!(stored_registrar(Ok(None)).err().map(|e| e.code()), Some(172));
    assert_eq!(stored_registrar(Err(())).err().map(|e| e.code()), Some(171));
}

#[test]
fn entry_points_run_in_the_contract() {
    for ep in registrar::contract::get_entry_points().iter().chain(notarizer::contract::entry_points().iter()) {
        assert_eq!(ep.entry_point_type, EntryPointType::Contract);
    }
}

#[test]
fn history_of_registrations_decides_access() {
    let extra = public_key([8u8; 32]);
    let mut chain = RegistrarAndNotarizer::deploy(vec![extra.clone()]);
    let user_key = chain.user_key.clone();
    let extra_account = extra.to_account_hash().value();
    chain.registrar_register(chain.operator, user_key.clone(), 0);
    assert_eq!(can_have_access(chain.caller_association(chain.user)), Ok(false));
    chain.registrar_register(chain.operator, user_key.clone(), 3);
    assert_eq!(can_have_access(chain.caller_association(chain.user)), Ok(true));
    chain.registrar_unregister(chain.operator, extra.clone());
    assert_eq!(can_have_access(chain.caller_association(extra_account)), Ok(false));
    chain.registrar_unregister(chain.operator, user_key.clone());
    chain.registrar_register(chain.operator, user_key.clone(), 1);
    assert_eq!(chain.caller_association(chain.user), 1);
    assert_eq!(can_have_access(chain.caller_association(chain.operator)), Ok(true));
    assert_eq!(can_have_access(chain.caller_association([77u8; 32])), Ok(false));
}
