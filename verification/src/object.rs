//! The Object Decoder: validates a fetched ledger object and dispatches on
//! its declared sub-module to decide which game variant its payload encodes.
//! The fetch itself and the binary deserialisation of the payload are done by
//! collaborators; this module decides, over the plain values they hand back.

use vstd::prelude::*;

use crate::errors::Error;
use crate::model::{bytes_equal, Digest, ObjectId, Ownership, TypeTag};

verus! {

/// The type name every game object must carry.
pub open spec fn game_type_name() -> Seq<char> {
    "Game"@
}

/// The sub-module declaring the shared-game variant.
pub open spec fn shared_module_name() -> Seq<char> {
    "shared"@
}

/// The sub-module declaring the owned-game variant.
pub open spec fn owned_module_name() -> Seq<char> {
    "owned"@
}

/// The raw content of a fetched object: either a package, or a typed data
/// object with its type tag and binary payload.
#[derive(Debug)]
pub enum RawContent {
    Package,
    MoveObject { type_tag: TypeTag, payload: Vec<u8> },
}

/// What the object fetch reports for one object, reduced to plain values.
/// Optional fields are absent when the transport did not supply them.
#[derive(Debug)]
pub struct ObjectData {
    pub id: ObjectId,
    pub version: u64,
    pub digest: Digest,
    pub owner: Option<Ownership>,
    pub content: Option<RawContent>,
}

/// The outcome of an object fetch: an error message, data, or neither.
#[derive(Debug)]
pub struct FetchResponse {
    pub error: Option<String>,
    pub data: Option<ObjectData>,
}

/// Which game variant a validated object's payload encodes.
#[derive(PartialEq, Eq, Structural, Clone, Copy, Debug)]
pub enum GameTag {
    Shared,
    Owned,
}

/// A fetched object that passed every validation check, ready for its
/// payload to be deserialised by the collaborator.
#[derive(Debug)]
pub struct ValidatedGame {
    pub id: ObjectId,
    pub version: u64,
    pub digest: Digest,
    pub owner: Ownership,
    pub tag: GameTag,
    pub payload: Vec<u8>,
}

/// The validation decision over a fetch response: which variant to decode,
/// or why the object is rejected. The checks run in a fixed order: a
/// reported error or missing data, package vs. data object, type name,
/// declaring package, sub-module dispatch.
pub open spec fn classify_game_response(package: Seq<u8>, resp: FetchResponse) -> Result<
    GameTag,
    Error,
> {
    match resp.error {
        Some(_) => Err(Error::NotFound),
        None => match resp.data {
            None => Err(Error::NotFound),
            Some(d) => if d.owner is None || d.content is None {
                Err(Error::NotFound)
            } else {
                match d.content {
                    None => Err(Error::NotFound),
                    Some(RawContent::Package) => Err(Error::WrongKind),
                    Some(RawContent::MoveObject { type_tag, payload }) => if type_tag.name@
                        != game_type_name() {
                        Err(Error::WrongType)
                    } else if type_tag.package@ != package {
                        Err(Error::WrongPackage)
                    } else if type_tag.module@ == shared_module_name() {
                        Ok(GameTag::Shared)
                    } else if type_tag.module@ == owned_module_name() {
                        Ok(GameTag::Owned)
                    } else {
                        Err(Error::UnrecognisedKind)
                    },
                }
            },
        },
    }
}

/// Validates a fetched object as a game of the configured `package`. On
/// success the returned value carries the object's identity, ownership, the
/// variant to decode, and the payload, all passed through unchanged.
pub fn validate_game_response(package: &ObjectId, resp: FetchResponse) -> (r: Result<
    ValidatedGame,
    Error,
>)
    ensures
        match classify_game_response(package@, resp) {
            Err(e) => r == Err::<ValidatedGame, Error>(e),
            Ok(tag) => {
                &&& r matches Ok(v)
                &&& resp.data matches Some(d)
                &&& (r matches Ok(v) ==> {
                    &&& v.tag == tag
                    &&& v.id@ == d.id@
                    &&& v.version == d.version
                    &&& v.digest@ == d.digest@
                    &&& d.owner matches Some(ow) && v.owner == ow
                    &&& (d.content matches Some(RawContent::MoveObject { type_tag, payload })
                        && v.payload@ == payload@)
                })
            },
        },
{
    let FetchResponse { error, data } = resp;
    if error.is_some() {
        return Err(Error::NotFound);
    }
    let Some(d) = data else {
        return Err(Error::NotFound);
    };
    let ObjectData { id, version, digest, owner, content } = d;
    let Some(owner) = owner else {
        return Err(Error::NotFound);
    };
    let Some(content) = content else {
        return Err(Error::NotFound);
    };
    let RawContent::MoveObject { type_tag, payload } = content else {
        return Err(Error::WrongKind);
    };
    if !(type_tag.name == "Game".to_owned()) {
        return Err(Error::WrongType);
    }
    if !bytes_equal(&type_tag.package.bytes, &package.bytes) {
        return Err(Error::WrongPackage);
    }
    let tag = if type_tag.module == "shared".to_owned() {
        GameTag::Shared
    } else if type_tag.module == "owned".to_owned() {
        GameTag::Owned
    } else {
        return Err(Error::UnrecognisedKind);
    };
    Ok(ValidatedGame { id, version, digest, owner, tag, payload })
}

/// A deserialisation failure of a validated object's payload is a decode
/// error; a successful deserialisation is passed through.
pub fn decoded_or_error<T>(decoded: Option<T>) -> (r: Result<T, Error>)
    ensures
        match decoded {
            None => r matches Err(e) && e matches Error::DecodeError,
            Some(v) => r matches Ok(o) && o == v,
        },
{
    match decoded {
        None => Err(Error::DecodeError),
        Some(v) => Ok(v),
    }
}

/// Ownership equivalence by value: same variant, same plain contents.
pub open spec fn ownership_equiv(a: Ownership, b: Ownership) -> bool {
    match (a, b) {
        (Ownership::Owned { owner: oa }, Ownership::Owned { owner: ob }) => oa@ == ob@,
        (
            Ownership::Shared { initial_shared_version: va },
            Ownership::Shared { initial_shared_version: vb },
        ) => va == vb,
        (Ownership::Immutable, Ownership::Immutable) => true,
        _ => false,
    }
}

/// Content equivalence by value.
pub open spec fn content_equiv(a: RawContent, b: RawContent) -> bool {
    match (a, b) {
        (RawContent::Package, RawContent::Package) => true,
        (
            RawContent::MoveObject { type_tag: ta, payload: pa },
            RawContent::MoveObject { type_tag: tb, payload: pb },
        ) => {
            &&& ta.package@ == tb.package@
            &&& ta.module@ == tb.module@
            &&& ta.name@ == tb.name@
            &&& pa@ == pb@
        },
        _ => false,
    }
}

/// Two fetch responses describe the same object state: no transport error on
/// either, and the data agrees field by field.
pub open spec fn response_equiv(a: FetchResponse, b: FetchResponse) -> bool {
    &&& a.error is None
    &&& b.error is None
    &&& match (a.data, b.data) {
        (None, None) => true,
        (Some(da), Some(db)) => {
            &&& da.id@ == db.id@
            &&& da.version == db.version
            &&& da.digest@ == db.digest@
            &&& match (da.owner, db.owner) {
                (None, None) => true,
                (Some(oa), Some(ob)) => ownership_equiv(oa, ob),
                _ => false,
            }
            &&& match (da.content, db.content) {
                (None, None) => true,
                (Some(ca), Some(cb)) => content_equiv(ca, cb),
                _ => false,
            }
        },
        _ => false,
    }
}

/// Decode determinism: fetching the same object state twice classifies it
/// identically — the decision depends only on the fetched values.
pub proof fn lemma_decode_deterministic(package: Seq<u8>, a: FetchResponse, b: FetchResponse)
    requires
        response_equiv(a, b),
    ensures
        classify_game_response(package, a) == classify_game_response(package, b),
{
}

/// Package mismatch is decisive: a typed data object carrying the game's
/// type name but declared by a different package is always rejected as
/// `WrongPackage`, whatever its content.
pub proof fn lemma_wrong_package(package: Seq<u8>, resp: FetchResponse)
    requires
        resp.error is None,
        resp.data matches Some(d) && {
            &&& d.owner is Some
            &&& d.content matches Some(RawContent::MoveObject { type_tag, payload })
            &&& type_tag.name@ == game_type_name()
            &&& type_tag.package@ != package
        },
    ensures
        classify_game_response(package, resp) == Err::<GameTag, Error>(Error::WrongPackage),
{
}

} // verus!
