//! Resources in the database, under the digests of their bytes.

use crate::context::{
    resource_found, resource_put, Resource, ResourceError, ResourceErrorView, ResourceView,
    Resources,
};
use crate::datum::{outcome, Datum};
use crate::model::{ResourceRef, ResourceRefView};
use crate::records::sqlite::{corrupt, make_corrupt};
use crate::text::{blank, hex_digit, is_blank, same_text};
use std::sync::Arc;
use vstd::prelude::*;
use vstd::string::*;

verus! {

/// The SHA-256 digest of the bytes.
pub uninterp spec fn sha256_of(bytes: Seq<u8>) -> Seq<u8>;

/// `sha2::Sha256::digest`: the digest of the bytes, which the bytes alone determine. That
/// it is the digest that the standard describes is left unsaid.
#[verifier::external_body]
fn sha256(bytes: &Vec<u8>) -> (r: Vec<u8>)
    ensures
        r@ == sha256_of(bytes@),
{
    <sha2::Sha256 as sha2::Digest>::digest(bytes.as_slice()).to_vec()
}

/// The bytes in hexadecimal digits, two for each.
pub open spec fn hex_of(bytes: Seq<u8>) -> Seq<char>
    decreases bytes.len(),
{
    if bytes.len() == 0 {
        Seq::empty()
    } else {
        hex_of(bytes.drop_last()).push(hex_digit(bytes.last() as nat / 16)).push(
            hex_digit(bytes.last() as nat % 16),
        )
    }
}

fn hex_digit_text(n: u8) -> (r: &'static str)
    requires
        n < 16,
    ensures
        r@ == seq![hex_digit(n as nat)],
{
    proof {
        reveal_strlit("0");
        reveal_strlit("1");
        reveal_strlit("2");
        reveal_strlit("3");
        reveal_strlit("4");
        reveal_strlit("5");
        reveal_strlit("6");
        reveal_strlit("7");
        reveal_strlit("8");
        reveal_strlit("9");
        reveal_strlit("a");
        reveal_strlit("b");
        reveal_strlit("c");
        reveal_strlit("d");
        reveal_strlit("e");
        reveal_strlit("f");
    }
    let r = match n {
        0 => "0",
        1 => "1",
        2 => "2",
        3 => "3",
        4 => "4",
        5 => "5",
        6 => "6",
        7 => "7",
        8 => "8",
        9 => "9",
        10 => "a",
        11 => "b",
        12 => "c",
        13 => "d",
        14 => "e",
        _ => "f",
    };
    assert(r@ =~= seq![hex_digit(n as nat)]);
    r
}

/// The bytes in hexadecimal digits, two for each.
pub fn hex(bytes: &Vec<u8>) -> (r: String)
    ensures
        r@ == hex_of(bytes@),
{
    let mut r = "".to_owned();
    let mut i: usize = 0;
    proof {
        reveal_strlit("");
        assert(bytes@.take(0) =~= Seq::<u8>::empty());
        assert(r@ =~= Seq::<char>::empty());
    }
    while i < bytes.len()
        invariant
            i <= bytes.len(),
            r@ == hex_of(bytes@.take(i as int)),
        decreases bytes.len() - i,
    {
        let ghost before = r@;
        let byte: u8 = bytes[i];
        assert(bytes@.take(i + 1).drop_last() =~= bytes@.take(i as int));
        assert(bytes@.take(i + 1).last() == byte);
        r.append(hex_digit_text(byte / 16));
        r.append(hex_digit_text(byte % 16));
        assert(r@ =~= before.push(hex_digit(byte as nat / 16)).push(hex_digit(byte as nat % 16)));
        i = i + 1;
    }
    assert(bytes@.take(i as int) =~= bytes@);
    r
}

/// The digest under which bytes are stored.
pub fn digest(bytes: &Vec<u8>) -> (r: String)
    ensures
        r@ == hex_of(sha256_of(bytes@)),
{
    hex(&sha256(bytes))
}

/// A resource as two tables hold it.
pub struct ResourceRow {
    pub media_type: String,
    pub hash: String,
    /// The bytes under the digest, if they are there.
    pub bytes: Option<Vec<u8>>,
}

/// The resource that the rows hold, given the digest of the bytes.
pub open spec fn resource_meaning(
    reference: ResourceRefView,
    row: Option<ResourceRow>,
    digest: Seq<char>,
) -> Result<ResourceView, ResourceErrorView> {
    match row {
        None => Err(ResourceErrorView::Missing),
        Some(row) => match row.bytes {
            None => Err(ResourceErrorView::Store(corrupt("resource blob missing"@))),
            Some(bytes) => if digest != row.hash@ {
                Err(ResourceErrorView::Store(corrupt("resource digest mismatch"@)))
            } else {
                Ok(ResourceView { reference, media_type: row.media_type@, bytes: bytes@ })
            },
        },
    }
}

/// The digest of the bytes of a row.
pub open spec fn row_digest(row: Option<ResourceRow>) -> Seq<char> {
    match row {
        Some(row) => match row.bytes {
            Some(bytes) => hex_of(sha256_of(bytes@)),
            None => Seq::empty(),
        },
        None => Seq::empty(),
    }
}

/// The resource that the rows hold, given the digest of the bytes.
pub fn resource_under(reference: &ResourceRef, row: Option<ResourceRow>, found: &str) -> (r: Result<
    Arc<Resource>,
    ResourceError,
>)
    ensures
        outcome(r) == resource_meaning(reference.deep_view(), row, found@),
{
    let row = match row {
        None => return Err(ResourceError::Missing),
        Some(row) => row,
    };
    let bytes = match row.bytes {
        None => return Err(ResourceError::Store(make_corrupt("resource blob missing"))),
        Some(bytes) => bytes,
    };
    if !same_text(found, row.hash.as_str()) {
        return Err(ResourceError::Store(make_corrupt("resource digest mismatch")));
    }
    assert(bytes.deep_view() =~= bytes@);
    Ok(
        Arc::new(
            Resource { reference: reference.duplicate(), media_type: row.media_type, bytes },
        ),
    )
}

/// The resource that the rows hold. Bytes that do not have the digest under which they
/// are stored are not returned.
pub fn read(reference: &ResourceRef, row: Option<ResourceRow>) -> (r: Result<
    Arc<Resource>,
    ResourceError,
>)
    ensures
        outcome(r) == resource_meaning(reference.deep_view(), row, row_digest(row)),
{
    let found = match &row {
        Some(row) => match &row.bytes {
            Some(bytes) => digest(bytes),
            None => "".to_owned(),
        },
        None => "".to_owned(),
    };
    resource_under(reference, row, found.as_str())
}

/// Refuses a reference that names no revision.
pub fn check_reference(reference: &ResourceRef) -> (r: Result<(), ResourceError>)
    ensures
        outcome(r) == if blank(reference.deep_view().revision) {
            Err::<(), ResourceErrorView>(ResourceErrorView::Invalid)
        } else {
            Ok(())
        },
{
    if is_blank(reference.revision.as_str()) {
        return Err(ResourceError::Invalid);
    }
    Ok(())
}

/// What writing a resource does.
pub enum Putting {
    /// It is there already.
    Existing(Arc<Resource>),
    /// It is written under this digest.
    New { hash: String },
}

/// What writing a resource does.
pub enum PuttingView {
    Existing(ResourceView),
    New { hash: Seq<char> },
}

impl DeepView for Putting {
    type V = PuttingView;

    open spec fn deep_view(&self) -> PuttingView {
        match self {
            Putting::Existing(resource) => PuttingView::Existing(resource.deep_view()),
            Putting::New { hash } => PuttingView::New { hash: hash@ },
        }
    }
}

/// What writing a resource does, given what reading its revision replied and the digest
/// of its bytes.
pub open spec fn putting(
    resource: ResourceView,
    existing: Result<ResourceView, ResourceErrorView>,
    digest: Seq<char>,
) -> Result<PuttingView, ResourceErrorView> {
    if blank(resource.reference.revision) || blank(resource.media_type) {
        Err(ResourceErrorView::Invalid)
    } else {
        match existing {
            Ok(existing) => if existing == resource {
                Ok(PuttingView::Existing(existing))
            } else {
                Err(ResourceErrorView::RevisionConflict)
            },
            Err(ResourceErrorView::Missing) => Ok(PuttingView::New { hash: digest }),
            Err(e) => Err(e),
        }
    }
}

/// What writing a resource does, given what reading its revision replied.
pub fn put(resource: &Resource, existing: Result<Arc<Resource>, ResourceError>) -> (r: Result<
    Putting,
    ResourceError,
>)
    ensures
        outcome(r) == putting(
            resource.deep_view(),
            outcome(existing),
            hex_of(sha256_of(resource.deep_view().bytes)),
        ),
{
    if is_blank(resource.reference.revision.as_str()) || is_blank(resource.media_type.as_str()) {
        return Err(ResourceError::Invalid);
    }
    match existing {
        Ok(existing) => {
            if (*existing).same_as(resource) {
                Ok(Putting::Existing(existing))
            } else {
                Err(ResourceError::RevisionConflict)
            }
        },
        Err(ResourceError::Missing) => {
            assert(resource.bytes.deep_view() =~= resource.bytes@);
            Ok(Putting::New { hash: digest(&resource.bytes) })
        },
        Err(error) => Err(error),
    }
}

/// Different bytes under the same digest are not accepted.
pub fn confirm_blob(resource: &Resource, stored: &Vec<u8>) -> (r: Result<(), ResourceError>)
    ensures
        outcome(r) == if stored@ == resource.deep_view().bytes {
            Ok::<(), ResourceErrorView>(())
        } else {
            Err(ResourceErrorView::Store(corrupt("resource blob conflicts with digest"@)))
        },
{
    assert(resource.bytes.deep_view() =~= resource.bytes@);
    assert(stored.deep_view() =~= stored@);
    if !stored.same_as(&resource.bytes) {
        return Err(ResourceError::Store(make_corrupt("resource blob conflicts with digest")));
    }
    Ok(())
}

/// What is written is what is read: the rows of a resource hold it.
pub proof fn resources_can_be_read(resource: ResourceView, row: ResourceRow)
    requires
        row.media_type@ == resource.media_type,
        row.bytes is Some && row.bytes->0@ == resource.bytes,
        row.hash@ == hex_of(sha256_of(resource.bytes)),
    ensures
        resource_meaning(resource.reference, Some(row), row_digest(Some(row))) == Ok::<
            ResourceView,
            ResourceErrorView,
        >(resource),
{
}

/// Writing in a transaction does what the rules of a resource store say.
pub proof fn puttings_follow_the_store(held: Resources, resource: ResourceView)
    ensures
        match putting(
            resource,
            resource_found(held, resource.reference),
            hex_of(sha256_of(resource.bytes)),
        ) {
            Err(e) => resource_put(held, resource) == Err::<
                (ResourceView, Resources),
                ResourceErrorView,
            >(e),
            Ok(PuttingView::Existing(existing)) => resource_put(held, resource) == Ok::<
                (ResourceView, Resources),
                ResourceErrorView,
            >((existing, held)),
            Ok(PuttingView::New { .. }) => resource_put(held, resource) == Ok::<
                (ResourceView, Resources),
                ResourceErrorView,
            >((resource, held.insert(resource.reference, resource))),
        },
{
}

} // verus!
