//! The blog pages and who may write to the blog.

use vstd::prelude::*;
use crate::access::{admits, authorize, Gate, Identity, PermissionDenied};
use crate::request::{classify_device_or_default, served_device, user_agent_view};
use crate::variant::{fragment_for, fragment_variant, ViewVariant};

verus! {

/// The list of all blogs: the fragment for the client's device class and
/// for a principal being there or not. It loads in one phase.
pub fn all_blogs_page(user_agent: Option<&str>, principal: &Option<Identity>) -> (variant:
    ViewVariant)
    ensures
        variant == fragment_for(served_device(user_agent_view(user_agent)), *principal is Some),
{
    fragment_variant(classify_device_or_default(user_agent), principal.is_some())
}

/// The page of one blog: the fragment for the client's device class and for
/// a principal being there or not. It loads in one phase.
pub fn get_blog_page(user_agent: Option<&str>, principal: &Option<Identity>) -> (variant:
    ViewVariant)
    ensures
        variant == fragment_for(served_device(user_agent_view(user_agent)), *principal is Some),
{
    fragment_variant(classify_device_or_default(user_agent), principal.is_some())
}

/// Whether `principal` may create a blog: superusers may.
pub fn create_blog(principal: &Option<Identity>) -> (r: Result<(), PermissionDenied>)
    ensures
        r is Ok <==> admits(Gate::Superuser, *principal),
{
    authorize(Gate::Superuser, principal)
}

/// Whether `principal` may change the blog of `owner_id`: its owner may, and
/// superusers.
pub fn edit_blog(principal: &Option<Identity>, owner_id: i32) -> (r: Result<(), PermissionDenied>)
    ensures
        r is Ok <==> admits(Gate::OwnerOrSuperuser { owner_id }, *principal),
{
    authorize(Gate::OwnerOrSuperuser { owner_id }, principal)
}

/// Whether `principal` may delete the blog of `owner_id`: its owner may, and
/// superusers.
pub fn delete_blog(principal: &Option<Identity>, owner_id: i32) -> (r: Result<(), PermissionDenied>)
    ensures
        r is Ok <==> admits(Gate::OwnerOrSuperuser { owner_id }, *principal),
{
    authorize(Gate::OwnerOrSuperuser { owner_id }, principal)
}

} // verus!
