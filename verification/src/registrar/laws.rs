//! What the registrar's writes do to its dictionaries, over any contents they may hold.
use vstd::prelude::*;
use crate::encoding::{
    account_hash_of, algorithm_hash_name, blake2b_256, hex_digit, lemma_lower_hex_injective,
    lower_hex, public_key_display,
};
use crate::registrar::associates::{
    account_record, account_text, init_puts, public_key_record, register_puts, store_puts,
    unregister_puts, AssociateType, KeyRecordView, PutView, RecordReadError, RegistrarStore,
};

verus! {

/// A hex digit is never the letter `P`.
proof fn lemma_hex_digit_not_p(n: int)
    requires
        0 <= n < 16,
    ensures
        hex_digit(n) != 'P',
{
    if n < 10 {
        assert((48 + n) as char != 'P');
    } else {
        assert((87 + n) as char != 'P');
    }
}

/// The text of a public key is never the hex text of any bytes: it starts with `P`.
pub proof fn lemma_key_text_not_hex(key: Seq<u8>, bytes: Seq<u8>)
    ensures
        public_key_display(key) != lower_hex(bytes),
{
    let d = public_key_display(key);
    let a = lower_hex(bytes);
    assert(d[0] == 'P');
    if bytes.len() == 0 {
        assert(a.len() == 0);
        assert(d.len() > 0);
    } else {
        assert(a == seq![hex_digit((bytes[0] as int) / 16), hex_digit((bytes[0] as int) % 16)]
            + lower_hex(bytes.drop_first()));
        assert(a[0] == hex_digit((bytes[0] as int) / 16));
        lemma_hex_digit_not_p((bytes[0] as int) / 16);
    }
}

/// The text of a public key and the text of its account hash are different item keys.
pub proof fn lemma_key_texts_differ(key: Seq<u8>)
    ensures
        public_key_display(key) != account_text(key),
{
    lemma_key_text_not_hex(key, account_hash_of(key));
}

/// Writing `a` then `b` is writing their concatenation.
pub proof fn lemma_put_all_concat(store: RegistrarStore, a: Seq<PutView>, b: Seq<PutView>)
    ensures
        store.put_all(a + b) == store.put_all(a).put_all(b),
    decreases b.len(),
{
    if b.len() == 0 {
        assert(a + b =~= a);
    } else {
        assert((a + b).drop_last() =~= a + b.drop_last());
        assert((a + b).last() == b.last());
        lemma_put_all_concat(store, a, b.drop_last());
    }
}

/// Filing a key with a role stores that role under the key's text and its account text, links
/// the key text to the account hash and the account text to the key, and leaves every other
/// item as it was.
pub proof fn lemma_store_effect(store: RegistrarStore, key: Seq<u8>, association: u32)
    ensures
        ({
            let after = store.put_all(store_puts(key, association));
            &&& after.association_type(public_key_display(key)) == association
            &&& after.association_type(account_text(key)) == association
            &&& after.public_keys[public_key_display(key)] == KeyRecordView::AccountHash(
                account_hash_of(key),
            )
            &&& after.public_keys[account_text(key)] == KeyRecordView::PublicKey(key)
            &&& after.associates.dom() == store.associates.dom().insert(
                public_key_display(key),
            ).insert(account_text(key))
            &&& after.public_keys.dom() == store.public_keys.dom().insert(
                public_key_display(key),
            ).insert(account_text(key))
            &&& forall|k: Seq<char>|
                k != public_key_display(key) && k != account_text(key) ==> {
                    &&& #[trigger] after.associates.get(k) == store.associates.get(k)
                    &&& after.public_keys.get(k) == store.public_keys.get(k)
                }
        }),
{
    lemma_key_texts_differ(key);
    let ps = store_puts(key, association);
    reveal_with_fuel(RegistrarStore::put_all, 5);
    assert(ps.drop_last().drop_last().drop_last().drop_last() =~= Seq::<PutView>::empty());
    let after = store.put_all(ps);
    assert(after.associates.dom() =~= store.associates.dom().insert(public_key_display(key)).insert(
        account_text(key),
    ));
    assert(after.public_keys.dom() =~= store.public_keys.dom().insert(
        public_key_display(key),
    ).insert(account_text(key)));
}

/// A registration of a key whose text holds no role (or role 0) makes it a member with the
/// given role: a later lookup by its public key and a later lookup by its account both answer
/// that role, and the two texts are linked in the `public_keys` dictionary. Nothing else
/// changes.
pub proof fn lemma_register_new_member(store: RegistrarStore, key: Seq<u8>, association: AssociateType)
    requires
        store.association_type(public_key_display(key)) == 0,
    ensures
        ({
            let after = store.put_all(
                register_puts(
                    store.association_type(public_key_display(key)),
                    key,
                    association.spec_value(),
                ),
            );
            &&& after.association_type(public_key_display(key)) == association.spec_value()
            &&& after.association_type(account_text(key)) == association.spec_value()
            &&& after.public_keys[public_key_display(key)] == KeyRecordView::AccountHash(
                account_hash_of(key),
            )
            &&& after.public_keys[account_text(key)] == KeyRecordView::PublicKey(key)
            &&& forall|k: Seq<char>|
                k != public_key_display(key) && k != account_text(key) ==> {
                    &&& #[trigger] after.associates.get(k) == store.associates.get(k)
                    &&& after.public_keys.get(k) == store.public_keys.get(k)
                }
        }),
{
    lemma_store_effect(store, key, association.spec_value());
}

/// A registration of a key whose text already holds a role other than 0 changes nothing: the
/// role it has stays.
pub proof fn lemma_register_existing_member(store: RegistrarStore, key: Seq<u8>, association: AssociateType)
    requires
        store.association_type(public_key_display(key)) != 0,
    ensures
        store.put_all(
            register_puts(
                store.association_type(public_key_display(key)),
                key,
                association.spec_value(),
            ),
        ) == store,
{
}

/// A removal of a member (a key whose text holds a role other than 0) leaves role 0 under its
/// key text and its account text, so lookups by its public key and by its account both answer
/// `NotMember`; the `public_keys` dictionary and every other role stay as they were.
pub proof fn lemma_unregister_member(store: RegistrarStore, key: Seq<u8>)
    requires
        store.association_type(public_key_display(key)) != 0,
    ensures
        ({
            let after = store.put_all(
                unregister_puts(store.association_type(public_key_display(key)), key),
            );
            &&& after.association_type(public_key_display(key)) == 0
            &&& after.association_type(account_text(key)) == 0
            &&& after.public_keys == store.public_keys
            &&& forall|k: Seq<char>|
                k != public_key_display(key) && k != account_text(key) ==> #[trigger] after.associates.get(
                    k,
                ) == store.associates.get(k)
        }),
{
    lemma_key_texts_differ(key);
    let ps = unregister_puts(store.association_type(public_key_display(key)), key);
    reveal_with_fuel(RegistrarStore::put_all, 3);
    assert(ps.drop_last().drop_last() =~= Seq::<PutView>::empty());
}

/// A removal of a key whose text holds no role (or role 0) changes nothing.
pub proof fn lemma_unregister_non_member(store: RegistrarStore, key: Seq<u8>)
    requires
        store.association_type(public_key_display(key)) == 0,
    ensures
        store.put_all(unregister_puts(store.association_type(public_key_display(key)), key))
            == store,
{
}

/// After the constructor has filed its partners, a lookup of each partner, by public key or
/// by account, answers `Partner`, whatever the dictionaries held before.
pub proof fn lemma_init_partners(store: RegistrarStore, keys: Seq<Seq<u8>>)
    ensures
        forall|i: int|
            0 <= i < keys.len() ==> {
                &&& #[trigger] store.put_all(init_puts(keys)).association_type(
                    public_key_display(keys[i]),
                ) == AssociateType::Partner.spec_value()
                &&& store.put_all(init_puts(keys)).association_type(account_text(keys[i]))
                    == AssociateType::Partner.spec_value()
            },
    decreases keys.len(),
{
    if keys.len() > 0 {
        let front = keys.drop_last();
        lemma_init_partners(store, front);
        let mid = store.put_all(init_puts(front));
        lemma_put_all_concat(store, init_puts(front), store_puts(keys.last(), 1));
        lemma_store_effect(mid, keys.last(), 1);
        let last = keys.last();
        assert(init_puts(keys) == init_puts(front) + store_puts(last, 1));
        let after = store.put_all(init_puts(keys));
        assert(after == mid.put_all(store_puts(last, 1)));
        assert forall|i: int| 0 <= i < keys.len() implies {
            &&& #[trigger] after.association_type(public_key_display(keys[i])) == 1
            &&& after.association_type(account_text(keys[i])) == 1
        } by {
            if i < keys.len() - 1 {
                assert(keys[i] == front[i]);
                let k1 = public_key_display(keys[i]);
                let k2 = account_text(keys[i]);
                assert(mid.association_type(k1) == 1);
                assert(mid.association_type(k2) == 1);
                if k1 != public_key_display(last) && k1 != account_text(last) {
                    assert(after.associates.get(k1) == mid.associates.get(k1));
                }
                if k2 != public_key_display(last) && k2 != account_text(last) {
                    assert(after.associates.get(k2) == mid.associates.get(k2));
                }
            } else {
                assert(keys[i] == last);
            }
        }
    }
}

/// A role's number reads back as that role, and every number from 0 to 4 reads as the role
/// whose number it is.
pub proof fn lemma_role_number_round_trip(t: AssociateType, u: u32)
    ensures
        AssociateType::spec_from(t.spec_value()) == Ok::<AssociateType, crate::registrar::error::RegistrarError>(t),
        u <= 4 ==> (AssociateType::spec_from(u) matches Ok(r) && r.spec_value() == u),
        u > 4 ==> AssociateType::spec_from(u) is Err,
{
}

/// Different accounts are filed under different items, so a lookup by one account never
/// answers what was stored for another.
pub proof fn lemma_accounts_filed_apart(account: [u8; 32], other: [u8; 32])
    requires
        account@ != other@,
    ensures
        lower_hex(account@) != lower_hex(other@),
{
    if lower_hex(account@) == lower_hex(other@) {
        lemma_lower_hex_injective(account@, other@);
    }
}

/// After a filing, a read of the key's text in `public_keys` answers its account hash, and a
/// read of the account text answers the key.
pub proof fn lemma_store_links_key_and_account(store: RegistrarStore, key: Seq<u8>, association: u32)
    ensures
        account_record(
            store.put_all(store_puts(key, association)).public_keys.get(public_key_display(key)),
        ) == Ok::<Seq<u8>, RecordReadError>(account_hash_of(key)),
        public_key_record(
            store.put_all(store_puts(key, association)).public_keys.get(account_text(key)),
        ) == Ok::<Seq<u8>, RecordReadError>(key),
{
    lemma_store_effect(store, key, association);
}

/// Keys that the registrar files apart: no two of them share a key text or an account text.
pub open spec fn texts_distinct(keys: Set<Seq<u8>>) -> bool {
    forall|k1: Seq<u8>, k2: Seq<u8>|
        #![trigger keys.contains(k1), keys.contains(k2)]
        keys.contains(k1) && keys.contains(k2) && k1 != k2 ==> public_key_display(k1)
            != public_key_display(k2) && account_text(k1) != account_text(k2)
}

/// Every key of `keys` holds the same role under its key text as under its account text.
pub open spec fn roles_agree(store: RegistrarStore, keys: Set<Seq<u8>>) -> bool {
    forall|k: Seq<u8>|
        keys.contains(k) ==> #[trigger] store.association_type(public_key_display(k))
            == store.association_type(account_text(k))
}

/// An item key that is neither text of `key`.
pub open spec fn apart_from(item: Seq<char>, key: Seq<u8>) -> bool {
    item != public_key_display(key) && item != account_text(key)
}

/// A write of role `association` under both texts of `key` (a filing, or a removal with
/// role 0) gives both texts that role and leaves every other item's role.
proof fn lemma_both_texts_set(store: RegistrarStore, key: Seq<u8>, ps: Seq<PutView>, association: u32)
    requires
        ps == store_puts(key, association) || (association == 0 && ps == seq![
            PutView::AssociationType(account_text(key), 0),
            PutView::AssociationType(public_key_display(key), 0),
        ]),
    ensures
        store.put_all(ps).association_type(public_key_display(key)) == association,
        store.put_all(ps).association_type(account_text(key)) == association,
        forall|x: Seq<char>|
            apart_from(x, key) ==> #[trigger] store.put_all(ps).association_type(x)
                == store.association_type(x),
{
    if ps == store_puts(key, association) {
        lemma_store_effect(store, key, association);
        assert forall|x: Seq<char>| apart_from(x, key) implies #[trigger] store.put_all(
            ps,
        ).association_type(x) == store.association_type(x) by {
            assert(store.put_all(ps).associates.get(x) == store.associates.get(x));
        }
    } else {
        lemma_key_texts_differ(key);
        reveal_with_fuel(RegistrarStore::put_all, 3);
        assert(ps.drop_last().drop_last() =~= Seq::<PutView>::empty());
    }
}

/// For keys filed apart, a write of one role under both texts of one of them leaves the
/// others' texts as they were.
proof fn lemma_other_keys_untouched(keys: Set<Seq<u8>>, key: Seq<u8>, k: Seq<u8>)
    requires
        texts_distinct(keys),
        keys.contains(key),
        keys.contains(k),
        k != key,
    ensures
        apart_from(public_key_display(k), key),
        apart_from(account_text(k), key),
{
    lemma_key_text_not_hex(k, account_hash_of(key));
    lemma_key_text_not_hex(key, account_hash_of(k));
}

/// Filing one of the keys filed apart keeps every key's two roles in agreement.
pub proof fn lemma_store_keeps_roles_agreeing(
    store: RegistrarStore,
    keys: Set<Seq<u8>>,
    key: Seq<u8>,
    association: u32,
)
    requires
        texts_distinct(keys),
        roles_agree(store, keys),
        keys.contains(key),
    ensures
        roles_agree(store.put_all(store_puts(key, association)), keys),
{
    let ps = store_puts(key, association);
    lemma_both_texts_set(store, key, ps, association);
    assert forall|k: Seq<u8>| keys.contains(k) implies #[trigger] store.put_all(
        ps,
    ).association_type(public_key_display(k)) == store.put_all(ps).association_type(
        account_text(k),
    ) by {
        if k != key {
            lemma_other_keys_untouched(keys, key, k);
        }
    }
}

/// A registration of one of the keys filed apart keeps every key's two roles in agreement.
pub proof fn lemma_register_keeps_roles_agreeing(
    store: RegistrarStore,
    keys: Set<Seq<u8>>,
    key: Seq<u8>,
    association: AssociateType,
)
    requires
        texts_distinct(keys),
        roles_agree(store, keys),
        keys.contains(key),
    ensures
        roles_agree(
            store.put_all(
                register_puts(
                    store.association_type(public_key_display(key)),
                    key,
                    association.spec_value(),
                ),
            ),
            keys,
        ),
{
    if store.association_type(public_key_display(key)) == 0 {
        lemma_store_keeps_roles_agreeing(store, keys, key, association.spec_value());
    }
}

/// A removal of one of the keys filed apart keeps every key's two roles in agreement.
pub proof fn lemma_unregister_keeps_roles_agreeing(
    store: RegistrarStore,
    keys: Set<Seq<u8>>,
    key: Seq<u8>,
)
    requires
        texts_distinct(keys),
        roles_agree(store, keys),
        keys.contains(key),
    ensures
        roles_agree(
            store.put_all(unregister_puts(store.association_type(public_key_display(key)), key)),
            keys,
        ),
{
    let registered = store.association_type(public_key_display(key));
    if registered != 0 {
        let ps = unregister_puts(registered, key);
        lemma_both_texts_set(store, key, ps, 0);
        assert forall|k: Seq<u8>| keys.contains(k) implies #[trigger] store.put_all(
            ps,
        ).association_type(public_key_display(k)) == store.put_all(ps).association_type(
            account_text(k),
        ) by {
            if k != key {
                lemma_other_keys_untouched(keys, key, k);
            }
        }
    }
}

/// The constructor's filing of partners drawn from the keys filed apart keeps every key's two
/// roles in agreement.
pub proof fn lemma_init_keeps_roles_agreeing(
    store: RegistrarStore,
    keys: Set<Seq<u8>>,
    partners: Seq<Seq<u8>>,
)
    requires
        texts_distinct(keys),
        roles_agree(store, keys),
        forall|i: int| 0 <= i < partners.len() ==> keys.contains(#[trigger] partners[i]),
    ensures
        roles_agree(store.put_all(init_puts(partners)), keys),
    decreases partners.len(),
{
    if partners.len() > 0 {
        let front = partners.drop_last();
        assert forall|i: int| 0 <= i < front.len() implies keys.contains(#[trigger] front[i]) by {
            assert(front[i] == partners[i]);
        }
        lemma_init_keeps_roles_agreeing(store, keys, front);
        let mid = store.put_all(init_puts(front));
        assert(init_puts(partners) == init_puts(front) + store_puts(partners.last(), 1));
        lemma_put_all_concat(store, init_puts(front), store_puts(partners.last(), 1));
        assert(keys.contains(partners[partners.len() - 1]));
        lemma_store_keeps_roles_agreeing(mid, keys, partners.last(), 1);
    }
}

/// An operation of the registrar's public entry points.
pub enum RegistrarOp {
    Register(Seq<u8>, AssociateType),
    Unregister(Seq<u8>),
}

impl RegistrarOp {
    /// The key that the operation names.
    pub open spec fn key(self) -> Seq<u8> {
        match self {
            RegistrarOp::Register(k, _) => k,
            RegistrarOp::Unregister(k) => k,
        }
    }

    /// The writes that the operation makes on `store`, after its lookup of the key's role.
    pub open spec fn puts(self, store: RegistrarStore) -> Seq<PutView> {
        match self {
            RegistrarOp::Register(k, t) => register_puts(
                store.association_type(public_key_display(k)),
                k,
                t.spec_value(),
            ),
            RegistrarOp::Unregister(k) => unregister_puts(
                store.association_type(public_key_display(k)),
                k,
            ),
        }
    }
}

/// The dictionaries after the operations `ops`, first to last.
pub open spec fn run_ops(store: RegistrarStore, ops: Seq<RegistrarOp>) -> RegistrarStore
    decreases ops.len(),
{
    if ops.len() == 0 {
        store
    } else {
        let before = run_ops(store, ops.drop_last());
        before.put_all(ops.last().puts(before))
    }
}

/// The dictionaries as the deployment leaves them: freshly created, then the partners filed.
pub open spec fn deployed(partners: Seq<Seq<u8>>) -> RegistrarStore {
    RegistrarStore { associates: Map::empty(), public_keys: Map::empty() }.put_all(
        init_puts(partners),
    )
}

/// The role of `key` after a deployment with `partners` and the operations `ops`: `Partner`
/// for a partner, 0 for any other key; a registration gives its role to a key whose role is
/// 0 and leaves any other role; a removal gives role 0.
pub open spec fn role_after(partners: Seq<Seq<u8>>, ops: Seq<RegistrarOp>, key: Seq<u8>) -> u32
    decreases ops.len(),
{
    if ops.len() == 0 {
        if partners.contains(key) {
            1
        } else {
            0
        }
    } else {
        let r = role_after(partners, ops.drop_last(), key);
        match ops.last() {
            RegistrarOp::Register(k, t) => if k == key && r == 0 {
                t.spec_value()
            } else {
                r
            },
            RegistrarOp::Unregister(k) => if k == key {
                0
            } else {
                r
            },
        }
    }
}

/// The roles that `store` holds: each key of `keys` holds `role(key)` under both its texts,
/// and any item that is neither text of a key of `keys` holds none.
pub open spec fn holds_roles(
    store: RegistrarStore,
    keys: Set<Seq<u8>>,
    role: spec_fn(Seq<u8>) -> u32,
) -> bool {
    &&& forall|k: Seq<u8>|
        keys.contains(k) ==> #[trigger] store.association_type(public_key_display(k)) == role(k)
            && store.association_type(account_text(k)) == role(k)
    &&& forall|x: Seq<char>|
        (forall|k: Seq<u8>| keys.contains(k) ==> apart_from(x, k)) ==> #[trigger] store.association_type(x) == 0
}

/// Whether an operation of `ops` names `k`.
pub open spec fn named(ops: Seq<RegistrarOp>, k: Seq<u8>) -> bool {
    exists|i: int| 0 <= i < ops.len() && #[trigger] ops[i].key() == k
}

/// Two keys that share neither their key text nor their account text.
pub open spec fn texts_apart(k1: Seq<u8>, k2: Seq<u8>) -> bool {
    public_key_display(k1) != public_key_display(k2) && account_text(k1) != account_text(k2)
}

/// Keys of `keys` share a text only where both are partners that no operation of `ops`
/// names.
pub open spec fn shared_texts_only_among_partners(
    keys: Set<Seq<u8>>,
    partners: Seq<Seq<u8>>,
    ops: Seq<RegistrarOp>,
) -> bool {
    forall|k1: Seq<u8>, k2: Seq<u8>|
        #![trigger keys.contains(k1), keys.contains(k2)]
        keys.contains(k1) && keys.contains(k2) && k1 != k2 && !texts_apart(k1, k2) ==> {
            &&& partners.contains(k1)
            &&& partners.contains(k2)
            &&& !named(ops, k1)
            &&& !named(ops, k2)
        }
}

/// A write of one role under both texts of a key of `keys` changes its role in `holds_roles`;
/// the other keys keep theirs, those that share a text with it holding that role already.
proof fn lemma_holds_roles_step(
    store: RegistrarStore,
    keys: Set<Seq<u8>>,
    role: spec_fn(Seq<u8>) -> u32,
    key: Seq<u8>,
    ps: Seq<PutView>,
    association: u32,
    new_role: spec_fn(Seq<u8>) -> u32,
)
    requires
        holds_roles(store, keys, role),
        keys.contains(key),
        ps == store_puts(key, association) || (association == 0 && ps == seq![
            PutView::AssociationType(account_text(key), 0),
            PutView::AssociationType(public_key_display(key), 0),
        ]),
        new_role(key) == association,
        forall|k: Seq<u8>| keys.contains(k) && k != key ==> #[trigger] new_role(k) == role(k),
        forall|k: Seq<u8>|
            keys.contains(k) && k != key && !texts_apart(k, key) ==> #[trigger] role(k)
                == association,
    ensures
        holds_roles(store.put_all(ps), keys, new_role),
{
    let after = store.put_all(ps);
    lemma_both_texts_set(store, key, ps, association);
    assert forall|k: Seq<u8>| keys.contains(k) implies #[trigger] after.association_type(
        public_key_display(k),
    ) == new_role(k) && after.association_type(account_text(k)) == new_role(k) by {
        if k != key {
            lemma_key_text_not_hex(k, account_hash_of(key));
            lemma_key_text_not_hex(key, account_hash_of(k));
            assert(store.association_type(public_key_display(k)) == role(k));
            assert(store.association_type(account_text(k)) == role(k));
            if public_key_display(k) != public_key_display(key) {
                assert(apart_from(public_key_display(k), key));
            }
            if account_text(k) != account_text(key) {
                assert(apart_from(account_text(k), key));
            }
        }
    }
    assert forall|x: Seq<char>|
        (forall|k: Seq<u8>| keys.contains(k) ==> apart_from(x, k)) implies #[trigger] after.association_type(x) == 0 by {
        assert(apart_from(x, key));
        assert(store.association_type(x) == 0);
    }
}

/// Whether `x` is the key text or the account text of one of `partners`.
pub open spec fn partner_text(partners: Seq<Seq<u8>>, x: Seq<char>) -> bool {
    exists|i: int| 0 <= i < partners.len() && !apart_from(x, #[trigger] partners[i])
}

/// The deployment leaves `Partner` under every text of a partner and no role under any other
/// item.
pub proof fn lemma_deployed_items(partners: Seq<Seq<u8>>)
    ensures
        forall|x: Seq<char>|
            #[trigger] deployed(partners).association_type(x) == if partner_text(partners, x) {
                1u32
            } else {
                0u32
            },
    decreases partners.len(),
{
    let empty = RegistrarStore { associates: Map::empty(), public_keys: Map::empty() };
    if partners.len() == 0 {
        assert(init_puts(partners) =~= Seq::<PutView>::empty());
        assert(deployed(partners) == empty);
    } else {
        let front = partners.drop_last();
        let last = partners.last();
        lemma_deployed_items(front);
        let mid = deployed(front);
        assert(init_puts(partners) == init_puts(front) + store_puts(last, 1));
        lemma_put_all_concat(empty, init_puts(front), store_puts(last, 1));
        lemma_both_texts_set(mid, last, store_puts(last, 1), 1);
        assert forall|x: Seq<char>|
            #[trigger] deployed(partners).association_type(x) == if partner_text(partners, x) {
                1u32
            } else {
                0u32
            } by {
            if apart_from(x, last) {
                assert(deployed(partners).association_type(x) == mid.association_type(x));
                if partner_text(front, x) {
                    let i = choose|i: int| 0 <= i < front.len() && !apart_from(x, #[trigger] front[i]);
                    assert(partners[i] == front[i]);
                }
                if partner_text(partners, x) {
                    let i = choose|i: int| 0 <= i < partners.len() && !apart_from(x, #[trigger] partners[i]);
                    assert(i != partners.len() - 1);
                    assert(front[i] == partners[i]);
                }
            } else {
                assert(!apart_from(x, partners[partners.len() - 1]));
            }
        }
    }
}

/// The deployment leaves `Partner` under both texts of each partner, nothing under the texts
/// of other keys, and nothing under any other item, where only partners share texts.
pub proof fn lemma_deployed_roles(partners: Seq<Seq<u8>>, keys: Set<Seq<u8>>)
    requires
        forall|k1: Seq<u8>, k2: Seq<u8>|
            #![trigger keys.contains(k1), keys.contains(k2)]
            keys.contains(k1) && keys.contains(k2) && k1 != k2 && !texts_apart(k1, k2)
                ==> partners.contains(k1) && partners.contains(k2),
        forall|i: int| 0 <= i < partners.len() ==> keys.contains(#[trigger] partners[i]),
    ensures
        holds_roles(deployed(partners), keys, |k: Seq<u8>| role_after(partners, Seq::empty(), k)),
{
    lemma_deployed_items(partners);
    let s = deployed(partners);
    let role = |k: Seq<u8>| role_after(partners, Seq::empty(), k);
    assert forall|k: Seq<u8>| keys.contains(k) implies #[trigger] s.association_type(
        public_key_display(k),
    ) == role(k) && s.association_type(account_text(k)) == role(k) by {
        lemma_key_texts_differ(k);
        if partners.contains(k) {
            let i = choose|i: int| 0 <= i < partners.len() && partners[i] == k;
            assert(!apart_from(public_key_display(k), partners[i]));
            assert(!apart_from(account_text(k), partners[i]));
        } else {
            if partner_text(partners, public_key_display(k)) {
                let i = choose|i: int| 0 <= i < partners.len() && !apart_from(public_key_display(k), #[trigger] partners[i]);
                let p = partners[i];
                lemma_key_text_not_hex(k, account_hash_of(p));
                assert(keys.contains(p));
                assert(!texts_apart(k, p));
                assert(partners.contains(p));
            }
            if partner_text(partners, account_text(k)) {
                let i = choose|i: int| 0 <= i < partners.len() && !apart_from(account_text(k), #[trigger] partners[i]);
                let p = partners[i];
                lemma_key_text_not_hex(p, account_hash_of(k));
                assert(keys.contains(p));
                assert(!texts_apart(k, p));
                assert(partners.contains(p));
            }
        }
    }
    assert forall|x: Seq<char>|
        (forall|k: Seq<u8>| keys.contains(k) ==> apart_from(x, k)) implies #[trigger] s.association_type(x) == 0 by {
        if partner_text(partners, x) {
            let i = choose|i: int| 0 <= i < partners.len() && !apart_from(x, #[trigger] partners[i]);
            assert(keys.contains(partners[i]));
        }
    }
}

/// After a deployment and any history of registrations and removals, a lookup of any key of
/// `keys`, by its public key or by its account, answers the role that `role_after` gives, and
/// any other item answers no role, where the keys that share a text are partners that no
/// operation names.
pub proof fn lemma_history_decides_roles(
    partners: Seq<Seq<u8>>,
    ops: Seq<RegistrarOp>,
    keys: Set<Seq<u8>>,
)
    requires
        shared_texts_only_among_partners(keys, partners, ops),
        forall|i: int| 0 <= i < partners.len() ==> keys.contains(#[trigger] partners[i]),
        forall|i: int| 0 <= i < ops.len() ==> keys.contains(#[trigger] ops[i].key()),
    ensures
        holds_roles(run_ops(deployed(partners), ops), keys, |k: Seq<u8>| role_after(partners, ops, k)),
    decreases ops.len(),
{
    if ops.len() == 0 {
        lemma_deployed_roles(partners, keys);
        let f1 = |k: Seq<u8>| role_after(partners, Seq::<RegistrarOp>::empty(), k);
        let f2 = |k: Seq<u8>| role_after(partners, ops, k);
        assert(ops =~= Seq::<RegistrarOp>::empty());
        assert(f1 =~= f2);
    } else {
        let front = ops.drop_last();
        let op = ops.last();
        assert forall|i: int| 0 <= i < front.len() implies keys.contains(#[trigger] front[i].key()) by {
            assert(front[i] == ops[i]);
        }
        assert forall|k: Seq<u8>| named(front, k) implies named(ops, k) by {
            let i = choose|i: int| 0 <= i < front.len() && #[trigger] front[i].key() == k;
            assert(ops[i] == front[i]);
        }
        lemma_history_decides_roles(partners, front, keys);
        let before = run_ops(deployed(partners), front);
        let old_role = |k: Seq<u8>| role_after(partners, front, k);
        let new_role = |k: Seq<u8>| role_after(partners, ops, k);
        let key = op.key();
        assert(keys.contains(ops[ops.len() - 1].key()));
        assert(named(ops, key)) by {
            assert(ops[ops.len() - 1].key() == key);
        }
        assert forall|k: Seq<u8>| keys.contains(k) && k != key implies texts_apart(k, key) by {
            if !texts_apart(k, key) {
                assert(!named(ops, key));
            }
        }
        let registered = before.association_type(public_key_display(key));
        assert(registered == old_role(key));
        assert forall|k: Seq<u8>| keys.contains(k) && k != key implies #[trigger] new_role(k)
            == old_role(k) by {}
        match op {
            RegistrarOp::Register(k, t) => {
                if registered == 0 {
                    lemma_holds_roles_step(
                        before,
                        keys,
                        old_role,
                        key,
                        store_puts(key, t.spec_value()),
                        t.spec_value(),
                        new_role,
                    );
                } else {
                    assert(op.puts(before) == Seq::<PutView>::empty());
                    assert(run_ops(deployed(partners), ops) == before);
                    assert forall|k2: Seq<u8>| keys.contains(k2) implies #[trigger] new_role(k2)
                        == old_role(k2) by {}
                    assert(holds_roles(before, keys, new_role));
                }
            },
            RegistrarOp::Unregister(k) => {
                if registered != 0 {
                    assert(op.puts(before) == seq![
                        PutView::AssociationType(account_text(key), 0),
                        PutView::AssociationType(public_key_display(key), 0),
                    ]);
                    lemma_holds_roles_step(before, keys, old_role, key, op.puts(before), 0, new_role);
                } else {
                    assert(op.puts(before) == Seq::<PutView>::empty());
                    assert(run_ops(deployed(partners), ops) == before);
                    assert forall|k2: Seq<u8>| keys.contains(k2) implies #[trigger] new_role(k2)
                        == old_role(k2) by {}
                    assert(holds_roles(before, keys, new_role));
                }
            },
        }
    }
}

/// Every role that a history gives is one of the five role numbers.
pub proof fn lemma_role_after_bounded(partners: Seq<Seq<u8>>, ops: Seq<RegistrarOp>, key: Seq<u8>)
    ensures
        role_after(partners, ops, key) <= 4,
    decreases ops.len(),
{
    if ops.len() > 0 {
        lemma_role_after_bounded(partners, ops.drop_last(), key);
    }
}

/// A registration of a key whose text holds no role files the role under the hex text of the
/// BLAKE2b digest of the key's algorithm name, a zero byte and its raw bytes: the account that
/// the host reports for a caller holding the key.
pub proof fn lemma_role_filed_under_callers_account(store: RegistrarStore, key: Seq<u8>, association: AssociateType)
    requires
        store.association_type(public_key_display(key)) == 0,
    ensures
        store.put_all(
            register_puts(
                store.association_type(public_key_display(key)),
                key,
                association.spec_value(),
            ),
        ).association_type(
            lower_hex(
                blake2b_256(algorithm_hash_name(key[0]) + seq![0u8] + key.drop_first()),
            ),
        ) == association.spec_value(),
{
    lemma_register_new_member(store, key, association);
}

} // verus!
