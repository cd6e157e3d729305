//! The request context and the selection of the content variant.

use vstd::prelude::*;
use crate::access::{admits, authorize, Gate, Identity, PermissionDenied};
use crate::request::{
    classify_device_or_default,
    classify_mode,
    mode_of,
    served_device,
    user_agent_view,
    DeviceClass,
    RequestMode,
};

verus! {

/// What is known of one inbound request. It lives as long as the request.
#[derive(Clone, Copy, Debug, PartialEq, Eq, Structural)]
pub struct RequestContext {
    pub device_class: DeviceClass,
    pub mode: RequestMode,
    pub principal: Option<Identity>,
}

/// The shape of the response: the page shell, or one of the four fragments.
#[derive(Clone, Copy, Debug, PartialEq, Eq, Structural)]
pub enum ViewVariant {
    /// The page skeleton; its content follows on a fragment request.
    FullShellVariant,
    AuthenticatedDesktopFragment,
    AuthenticatedMobileFragment,
    AnonymousDesktopFragment,
    AnonymousMobileFragment,
}

/// The fragment for a device class and for a principal being there or not.
pub open spec fn fragment_for(device: DeviceClass, signed_in: bool) -> ViewVariant {
    match (signed_in, device) {
        (true, DeviceClass::Desktop) => ViewVariant::AuthenticatedDesktopFragment,
        (true, DeviceClass::Mobile) => ViewVariant::AuthenticatedMobileFragment,
        (false, DeviceClass::Desktop) => ViewVariant::AnonymousDesktopFragment,
        (false, DeviceClass::Mobile) => ViewVariant::AnonymousMobileFragment,
    }
}

/// The transition table of the selector: a full load gets the shell whatever
/// else holds, a fragment request the fragment for its audience.
pub open spec fn variant_for(mode: RequestMode, signed_in: bool, device: DeviceClass) -> ViewVariant {
    match mode {
        RequestMode::FullLoad => ViewVariant::FullShellVariant,
        RequestMode::Fragment => fragment_for(device, signed_in),
    }
}

/// The selector with the authorization overlay. The shell is public; a gate
/// stands before the fragment, where identity and device are both known.
pub open spec fn resolution_of(ctx: RequestContext, gate: Gate) -> Result<
    ViewVariant,
    PermissionDenied,
> {
    match ctx.mode {
        RequestMode::FullLoad => Ok(ViewVariant::FullShellVariant),
        RequestMode::Fragment => if admits(gate, ctx.principal) {
            Ok(fragment_for(ctx.device_class, ctx.principal is Some))
        } else {
            Err(PermissionDenied)
        },
    }
}

impl RequestContext {
    /// The variant the transition table gives this context.
    pub open spec fn variant(&self) -> ViewVariant {
        variant_for(self.mode, self.principal is Some, self.device_class)
    }

    pub fn new(device_class: DeviceClass, mode: RequestMode, principal: Option<Identity>) -> (ctx:
        RequestContext)
        ensures
            ctx == (RequestContext { device_class, mode, principal }),
    {
        RequestContext { device_class, mode, principal }
    }

    /// The context of a request, from what its transport and its session
    /// report. A request without a user-agent string is served as a desktop
    /// one.
    pub fn resolve(user_agent: Option<&str>, mode_flag: Option<i32>, principal: Option<Identity>) -> (ctx: RequestContext)
        ensures
            ctx == (RequestContext {
                device_class: served_device(user_agent_view(user_agent)),
                mode: mode_of(mode_flag),
                principal,
            }),
    {
        RequestContext {
            device_class: classify_device_or_default(user_agent),
            mode: classify_mode(mode_flag),
            principal,
        }
    }

    /// Whether a principal is signed in.
    pub fn is_signed_in(&self) -> (b: bool)
        ensures
            b == (self.principal is Some),
    {
        self.principal.is_some()
    }
}

/// The fragment for a device class and for a principal being there or not.
pub fn fragment_variant(device: DeviceClass, signed_in: bool) -> (variant: ViewVariant)
    ensures
        variant == fragment_for(device, signed_in),
{
    match device {
        DeviceClass::Desktop => if signed_in {
            ViewVariant::AuthenticatedDesktopFragment
        } else {
            ViewVariant::AnonymousDesktopFragment
        },
        DeviceClass::Mobile => if signed_in {
            ViewVariant::AuthenticatedMobileFragment
        } else {
            ViewVariant::AnonymousMobileFragment
        },
    }
}

/// Selects the content variant for a request.
pub fn select_variant(ctx: &RequestContext) -> (variant: ViewVariant)
    ensures
        variant == ctx.variant(),
{
    match ctx.mode {
        RequestMode::FullLoad => ViewVariant::FullShellVariant,
        RequestMode::Fragment => fragment_variant(ctx.device_class, ctx.principal.is_some()),
    }
}

/// Selects the content variant for a request to content behind `gate`.
pub fn resolve_view(ctx: &RequestContext, gate: Gate) -> (r: Result<ViewVariant, PermissionDenied>)
    ensures
        r == resolution_of(*ctx, gate),
{
    match ctx.mode {
        RequestMode::FullLoad => Ok(ViewVariant::FullShellVariant),
        RequestMode::Fragment => match authorize(gate, &ctx.principal) {
            Ok(()) => Ok(fragment_variant(ctx.device_class, ctx.principal.is_some())),
            Err(denied) => Err(denied),
        },
    }
}

/// The selector looks at the device class, the mode and at whether a
/// principal is there, not at who the principal is: two contexts that agree
/// on these get the same variant.
pub proof fn lemma_selection_is_determined(a: RequestContext, b: RequestContext)
    requires
        a.device_class == b.device_class,
        a.mode == b.mode,
        a.principal is Some <==> b.principal is Some,
    ensures
        a.variant() == b.variant(),
{
}

/// The four rows of the table for fragment requests, and the row for full
/// loads.
pub proof fn lemma_transition_table(ctx: RequestContext)
    ensures
        ctx.mode == RequestMode::FullLoad ==> ctx.variant() == ViewVariant::FullShellVariant,
        ctx.mode == RequestMode::Fragment && ctx.principal is Some && ctx.device_class
            == DeviceClass::Desktop ==> ctx.variant() == ViewVariant::AuthenticatedDesktopFragment,
        ctx.mode == RequestMode::Fragment && ctx.principal is Some && ctx.device_class
            == DeviceClass::Mobile ==> ctx.variant() == ViewVariant::AuthenticatedMobileFragment,
        ctx.mode == RequestMode::Fragment && ctx.principal is None && ctx.device_class
            == DeviceClass::Desktop ==> ctx.variant() == ViewVariant::AnonymousDesktopFragment,
        ctx.mode == RequestMode::Fragment && ctx.principal is None && ctx.device_class
            == DeviceClass::Mobile ==> ctx.variant() == ViewVariant::AnonymousMobileFragment,
{
}

/// Behind a public gate the overlay changes nothing, and where a gate lets a
/// request pass it gets the variant of the table.
pub proof fn lemma_overlay_keeps_the_table(ctx: RequestContext, gate: Gate)
    ensures
        resolution_of(ctx, Gate::Public) == Ok::<ViewVariant, PermissionDenied>(ctx.variant()),
        resolution_of(ctx, gate) matches Ok(variant) ==> variant == ctx.variant(),
        resolution_of(ctx, gate) is Err <==> ctx.mode == RequestMode::Fragment && !admits(
            gate,
            ctx.principal,
        ),
{
}

/// A denial is the same answer whatever the device, the mode, which gate
/// denied and why: no identity, or one that does not suffice.
pub proof fn lemma_denial_is_uniform(
    a: RequestContext,
    gate_a: Gate,
    b: RequestContext,
    gate_b: Gate,
)
    requires
        resolution_of(a, gate_a) is Err,
        resolution_of(b, gate_b) is Err,
    ensures
        resolution_of(a, gate_a) == resolution_of(b, gate_b),
{
}

} // verus!
