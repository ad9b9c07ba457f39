//! The decisions behind the interface of the non-fungible registry.
//!
//! The registry keeps collections of items, their owners, metadata and
//! attributes in the storage of the chain, and changes them through
//! operations of its own. Neither is part of this library. What is here is
//! what a call of the interface decides before the registry does its work:
//! which identifier a new collection gets, where an attribute is read and
//! where it is written, whether an item may move, who pays a deposit, and
//! which errors come when. Each function takes what the host has read as
//! plain values and returns what the host is to ask of the registry.
//!
//! Keys and values are the host's: a function is told how long a key is
//! where that matters, and says of a change whether it is about the key and
//! the value that the caller handed in.

use vstd::prelude::*;
use crate::primitives::AccountId;

verus! {

/// The identifier of a collection.
pub type CollectionId = u32;

/// The identifier of an item within its collection.
pub type ItemId = u32;

/// Why the interface refuses a call before the registry is asked.
#[derive(Clone, Copy, Debug, PartialEq, Eq, Structural)]
pub enum RegistryError {
    /// The collection's settings do not allow the call.
    WrongSetting,
    /// No identifier is at hand for a new collection.
    UnknownCollection,
    /// The caller is not the owner that was asked for.
    NoPermission,
    /// The item is already locked against transfers.
    ItemLocked,
}

/// Who has set an attribute, and so under which heading it is stored.
#[derive(Clone, Copy, Debug, PartialEq, Eq)]
pub enum Namespace {
    /// Set by the registry itself.
    Pallet,
    /// Set by the owner of the collection.
    CollectionOwner,
    /// Set by the owner of the item.
    ItemOwner,
    /// Set by the given account, which owns neither.
    Account(AccountId),
}

/// Where the value that a call asks for is to be read.
#[derive(Clone, Copy, Debug, PartialEq, Eq)]
pub enum Lookup {
    /// In the metadata of the item.
    ItemMetadata { collection: CollectionId, item: ItemId },
    /// In the metadata of the collection.
    CollectionMetadata { collection: CollectionId },
    /// Among the attributes of the item, or of the collection where `item`
    /// is `None`, under the given namespace and the key as it was handed in.
    Attribute { collection: CollectionId, item: Option<ItemId>, namespace: Namespace },
    /// Nowhere: there is no such value.
    Nothing,
}

/// Which key a change of an attribute is about.
#[derive(Clone, Copy, Debug, PartialEq, Eq, Structural)]
pub enum Key {
    /// The key that the caller has handed in.
    Given,
    /// The key under which the registry marks an item as locked against
    /// transfers.
    TransferDisabled,
}

/// What a call asks the registry to do to one attribute of an item, or of a
/// collection where `item` is `None`. The registry makes the change in its
/// own name: it checks no caller's rights.
#[derive(Clone, Copy, Debug, PartialEq, Eq)]
pub enum AttributeChange {
    /// Store a value under the key: the value that the caller has handed
    /// in, or the empty value where `empty_value` says so.
    Store {
        collection: CollectionId,
        item: Option<ItemId>,
        namespace: Namespace,
        key: Key,
        empty_value: bool,
    },
    /// Remove the key and its value.
    Remove { collection: CollectionId, item: Option<ItemId>, namespace: Namespace, key: Key },
}

/// Whether a key of `length` bytes is too long for a registry that stores
/// keys of up to `key_limit` bytes.
pub open spec fn too_long(length: nat, key_limit: u32) -> bool {
    length > key_limit
}

/// Whether `key` is too long for a registry that stores keys of up to
/// `key_limit` bytes.
fn exceeds(key: &[u8], key_limit: u32) -> (long: bool)
    ensures
        long == too_long(key@.len(), key_limit),
{
    key.len() > key_limit as usize
}

/// The creation of a collection, as the registry is asked to carry it out
/// and to announce it.
#[derive(Clone, Copy, Debug, PartialEq, Eq)]
pub struct Created {
    /// The identifier of the new collection.
    pub collection: CollectionId,
    /// The account that creates the collection and owns it.
    pub creator: AccountId,
    /// The account that manages the collection; the announcement names it
    /// as the owner.
    pub owner: AccountId,
}

/// The identifier that a new collection gets: the one the registry has
/// lined up; where it has none, the first of all; where there is neither,
/// none.
pub open spec fn chosen_identifier(
    next_id: Option<CollectionId>,
    initial_id: Option<CollectionId>,
) -> Option<CollectionId> {
    if next_id is Some {
        next_id
    } else {
        initial_id
    }
}

/// Decides the creation of a collection for `who`, to be managed by `admin`,
/// under the next identifier.
///
/// A collection whose settings switch off the deposit is refused with
/// `WrongSetting`: only a forced creation may do without one. Otherwise the
/// identifier is `next_id`, the one the registry has lined up; where it has
/// none, `initial_id`, the first of all; where there is neither, the call is
/// refused with `UnknownCollection`.
pub fn create_collection(
    who: AccountId,
    admin: AccountId,
    deposit_required_disabled: bool,
    next_id: Option<CollectionId>,
    initial_id: Option<CollectionId>,
) -> (result: Result<Created, RegistryError>)
    ensures
        result == (if deposit_required_disabled {
            Err::<Created, RegistryError>(RegistryError::WrongSetting)
        } else if chosen_identifier(next_id, initial_id) is Some {
            Ok(
                Created {
                    collection: chosen_identifier(next_id, initial_id).unwrap(),
                    creator: who,
                    owner: admin,
                },
            )
        } else {
            Err(RegistryError::UnknownCollection)
        }),
{
    if deposit_required_disabled {
        return Err(RegistryError::WrongSetting);
    }
    let collection = match next_id {
        Some(id) => id,
        None => match initial_id {
            Some(id) => id,
            None => {
                return Err(RegistryError::UnknownCollection);
            },
        },
    };
    Ok(Created { collection, creator: who, owner: admin })
}

/// Decides the creation of a collection for `who`, to be managed by `admin`,
/// under the identifier `collection` that the caller has chosen: it goes
/// ahead under that identifier, unless the settings switch off the deposit,
/// which is refused with `WrongSetting`.
pub fn create_collection_with_id(
    collection: CollectionId,
    who: AccountId,
    admin: AccountId,
    deposit_required_disabled: bool,
) -> (result: Result<Created, RegistryError>)
    ensures
        result == (if deposit_required_disabled {
            Err::<Created, RegistryError>(RegistryError::WrongSetting)
        } else {
            Ok(Created { collection, creator: who, owner: admin })
        }),
{
    if deposit_required_disabled {
        Err(RegistryError::WrongSetting)
    } else {
        Ok(Created { collection, creator: who, owner: admin })
    }
}

/// Where the attribute `key` of an item is read. The empty key stands for
/// the item's metadata. Any other key is an attribute of the item set by the
/// owner of the collection; a key that is too long to be stored has no value.
pub fn attribute(collection: CollectionId, item: ItemId, key: &[u8], key_limit: u32) -> (lookup:
    Lookup)
    ensures
        lookup == (if key@.len() == 0 {
            Lookup::ItemMetadata { collection, item }
        } else if too_long(key@.len(), key_limit) {
            Lookup::Nothing
        } else {
            Lookup::Attribute { collection, item: Some(item), namespace: Namespace::CollectionOwner }
        }),
{
    if key.len() == 0 {
        Lookup::ItemMetadata { collection, item }
    } else if exceeds(key, key_limit) {
        Lookup::Nothing
    } else {
        Lookup::Attribute { collection, item: Some(item), namespace: Namespace::CollectionOwner }
    }
}

/// Where the attribute `key` that `account` has set on an item is read:
/// under the item owner's namespace if the account owns the item, under the
/// account's own if it does not. A key that is too long to be stored has no
/// value. The empty key is a key like any other.
pub fn custom_attribute(
    account: AccountId,
    owns_item: bool,
    collection: CollectionId,
    item: ItemId,
    key: &[u8],
    key_limit: u32,
) -> (lookup: Lookup)
    ensures
        lookup == (if too_long(key@.len(), key_limit) {
            Lookup::Nothing
        } else {
            Lookup::Attribute {
                collection,
                item: Some(item),
                namespace: if owns_item {
                    Namespace::ItemOwner
                } else {
                    Namespace::Account(account)
                },
            }
        }),
{
    if exceeds(key, key_limit) {
        return Lookup::Nothing;
    }
    let namespace = if owns_item {
        Namespace::ItemOwner
    } else {
        Namespace::Account(account)
    };
    Lookup::Attribute { collection, item: Some(item), namespace }
}

/// Where the attribute `key` that the registry itself has set is read: on
/// the item if one is given, on the collection if not, under the registry's
/// namespace. A key that is too long to be stored has no value. The empty
/// key is a key like any other.
pub fn system_attribute(
    collection: CollectionId,
    item: Option<ItemId>,
    key: &[u8],
    key_limit: u32,
) -> (lookup: Lookup)
    ensures
        lookup == (if too_long(key@.len(), key_limit) {
            Lookup::Nothing
        } else {
            Lookup::Attribute { collection, item, namespace: Namespace::Pallet }
        }),
{
    if exceeds(key, key_limit) {
        Lookup::Nothing
    } else {
        Lookup::Attribute { collection, item, namespace: Namespace::Pallet }
    }
}

/// Where the attribute `key` of a collection is read. The empty key stands
/// for the collection's metadata. Any other key is an attribute of the
/// collection, of no item, set by its owner; a key that is too long to be
/// stored has no value.
pub fn collection_attribute(collection: CollectionId, key: &[u8], key_limit: u32) -> (lookup:
    Lookup)
    ensures
        lookup == (if key@.len() == 0 {
            Lookup::CollectionMetadata { collection }
        } else if too_long(key@.len(), key_limit) {
            Lookup::Nothing
        } else {
            Lookup::Attribute { collection, item: None, namespace: Namespace::CollectionOwner }
        }),
{
    if key.len() == 0 {
        Lookup::CollectionMetadata { collection }
    } else if exceeds(key, key_limit) {
        Lookup::Nothing
    } else {
        Lookup::Attribute { collection, item: None, namespace: Namespace::CollectionOwner }
    }
}

/// Whether an item may be transferred: it is not known to be locked, and
/// both the settings of its collection and its own exist and allow it.
pub open spec fn allowed_to_move(
    transfer_disabled: Option<bool>,
    collection_transferable: Option<bool>,
    item_transferable: Option<bool>,
) -> bool {
    &&& transfer_disabled != Some(true)
    &&& collection_transferable == Some(true)
    &&& item_transferable == Some(true)
}

/// Whether an item may be transferred.
///
/// `transfer_disabled` is whether the registry has locked the item, `None`
/// if it could not tell. `collection_transferable` and `item_transferable`
/// are whether the settings of the collection and of the item allow
/// transfers, `None` where there are no settings. The item may move unless
/// it is known to be locked, and only if both settings exist and allow it.
pub fn can_transfer(
    transfer_disabled: Option<bool>,
    collection_transferable: Option<bool>,
    item_transferable: Option<bool>,
) -> (allowed: bool)
    ensures
        allowed == allowed_to_move(transfer_disabled, collection_transferable, item_transferable),
{
    match transfer_disabled {
        Some(true) => {
            return false;
        },
        _ => {},
    }
    match (collection_transferable, item_transferable) {
        (Some(collection), Some(item)) => collection && item,
        _ => false,
    }
}

/// Who pays the deposit for an item minted into the account `who`: the
/// owner of the collection, which is `None`, if `deposit_collection_owner`
/// says so, and `who` if not.
pub fn mint_into(who: AccountId, deposit_collection_owner: bool) -> (depositor: Option<AccountId>)
    ensures
        depositor == (if deposit_collection_owner {
            None
        } else {
            Some(who)
        }),
{
    if deposit_collection_owner {
        None
    } else {
        Some(who)
    }
}

/// Decides whether an item owned by `owner` may be burned. Where the caller
/// names the owner it expects, in `maybe_check_owner`, and the item belongs
/// to another, the burn is refused with `NoPermission`. Where it names none,
/// the burn goes ahead.
pub fn burn(owner: AccountId, maybe_check_owner: Option<AccountId>) -> (result: Result<
    (),
    RegistryError,
>)
    ensures
        result == (if maybe_check_owner is Some && maybe_check_owner != Some(owner) {
            Err::<(), RegistryError>(RegistryError::NoPermission)
        } else {
            Ok(())
        }),
{
    match maybe_check_owner {
        Some(check_owner) => {
            if owner != check_owner {
                return Err(RegistryError::NoPermission);
            }
        },
        None => {},
    }
    Ok(())
}

/// What setting an attribute of an item asks of the registry: to store the
/// caller's value under the caller's key, on the item, in the registry's own
/// namespace.
pub fn set_attribute(collection: CollectionId, item: ItemId) -> (change: AttributeChange)
    ensures
        change == (AttributeChange::Store {
            collection,
            item: Some(item),
            namespace: Namespace::Pallet,
            key: Key::Given,
            empty_value: false,
        }),
{
    AttributeChange::Store {
        collection,
        item: Some(item),
        namespace: Namespace::Pallet,
        key: Key::Given,
        empty_value: false,
    }
}

/// What setting an attribute of a collection asks of the registry: to store
/// the caller's value under the caller's key, on the collection and no item,
/// in the registry's own namespace.
pub fn set_collection_attribute(collection: CollectionId) -> (change: AttributeChange)
    ensures
        change == (AttributeChange::Store {
            collection,
            item: None,
            namespace: Namespace::Pallet,
            key: Key::Given,
            empty_value: false,
        }),
{
    AttributeChange::Store {
        collection,
        item: None,
        namespace: Namespace::Pallet,
        key: Key::Given,
        empty_value: false,
    }
}

/// What clearing an attribute of an item asks of the registry: to remove
/// the caller's key from the item, in the registry's own namespace.
pub fn clear_attribute(collection: CollectionId, item: ItemId) -> (change: AttributeChange)
    ensures
        change == (AttributeChange::Remove {
            collection,
            item: Some(item),
            namespace: Namespace::Pallet,
            key: Key::Given,
        }),
{
    AttributeChange::Remove {
        collection,
        item: Some(item),
        namespace: Namespace::Pallet,
        key: Key::Given,
    }
}

/// What clearing an attribute of a collection asks of the registry: to
/// remove the caller's key from the collection and no item, in the
/// registry's own namespace.
pub fn clear_collection_attribute(collection: CollectionId) -> (change: AttributeChange)
    ensures
        change == (AttributeChange::Remove {
            collection,
            item: None,
            namespace: Namespace::Pallet,
            key: Key::Given,
        }),
{
    AttributeChange::Remove { collection, item: None, namespace: Namespace::Pallet, key: Key::Given }
}

/// Decides whether an item can be locked against transfers, and what the
/// lock asks of the registry.
///
/// `transfer_disabled` is whether the item is locked. An item that is
/// locked cannot be locked again, which is refused with `ItemLocked`.
/// Otherwise the lock is set as an attribute of the item: the empty value
/// under the lock's key, in the registry's own namespace.
pub fn disable_transfer(collection: CollectionId, item: ItemId, transfer_disabled: bool) -> (result:
    Result<AttributeChange, RegistryError>)
    ensures
        result == (if transfer_disabled {
            Err::<AttributeChange, RegistryError>(RegistryError::ItemLocked)
        } else {
            Ok(
                AttributeChange::Store {
                    collection,
                    item: Some(item),
                    namespace: Namespace::Pallet,
                    key: Key::TransferDisabled,
                    empty_value: true,
                },
            )
        }),
{
    if transfer_disabled {
        return Err(RegistryError::ItemLocked);
    }
    Ok(
        AttributeChange::Store {
            collection,
            item: Some(item),
            namespace: Namespace::Pallet,
            key: Key::TransferDisabled,
            empty_value: true,
        },
    )
}

/// What lifting the lock of an item asks of the registry, locked or not: to
/// remove the lock's key from the item, in the registry's own namespace.
pub fn enable_transfer(collection: CollectionId, item: ItemId) -> (change: AttributeChange)
    ensures
        change == (AttributeChange::Remove {
            collection,
            item: Some(item),
            namespace: Namespace::Pallet,
            key: Key::TransferDisabled,
        }),
{
    AttributeChange::Remove {
        collection,
        item: Some(item),
        namespace: Namespace::Pallet,
        key: Key::TransferDisabled,
    }
}

/// A lock is set once and holds: exactly the items that cannot be locked
/// again, because they are locked, may not move whatever their settings say.
pub proof fn locked_item_stays_put(
    transfer_disabled: bool,
    collection_transferable: Option<bool>,
    item_transferable: Option<bool>,
)
    ensures
        transfer_disabled ==> !allowed_to_move(
            Some(transfer_disabled),
            collection_transferable,
            item_transferable,
        ),
        !transfer_disabled ==> allowed_to_move(
            Some(transfer_disabled),
            collection_transferable,
            item_transferable,
        ) == (collection_transferable == Some(true) && item_transferable == Some(true)),
{
}

} // verus!
