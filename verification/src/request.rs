//! Classification of an inbound request: device class and load mode.

use vstd::prelude::*;
use crate::text::{contains, contains_text};

verus! {

/// The kind of client a response is shaped for.
#[derive(Clone, Copy, Debug, PartialEq, Eq, Structural)]
pub enum DeviceClass {
    Desktop,
    Mobile,
}

/// Whether the client loads a whole page or a part for a page it already shows.
#[derive(Clone, Copy, Debug, PartialEq, Eq, Structural)]
pub enum RequestMode {
    FullLoad,
    Fragment,
}

/// Why a request could not be classified.
#[derive(Clone, Copy, Debug, PartialEq, Eq, Structural)]
pub enum ClassificationError {
    /// The request carried no user-agent string.
    MissingUserAgent,
}

/// The marker whose presence in a user-agent string names a mobile client.
pub open spec fn mobile_marker() -> Seq<char> {
    seq!['M', 'o', 'b', 'i', 'l', 'e']
}

/// The device class of a client that sent `user_agent`: mobile exactly when
/// the marker occurs in it, letter case as given.
pub open spec fn device_of(user_agent: Seq<char>) -> DeviceClass {
    if contains_text(user_agent, mobile_marker()) {
        DeviceClass::Mobile
    } else {
        DeviceClass::Desktop
    }
}

/// What the classifier owes for a user-agent string that may be absent.
pub open spec fn classification_of(user_agent: Option<Seq<char>>) -> Result<
    DeviceClass,
    ClassificationError,
> {
    match user_agent {
        Some(ua) => Ok(device_of(ua)),
        None => Err(ClassificationError::MissingUserAgent),
    }
}

/// The device class a request is served as: a request that cannot be
/// classified is served as a desktop one.
pub open spec fn served_device(user_agent: Option<Seq<char>>) -> DeviceClass {
    match classification_of(user_agent) {
        Ok(device) => device,
        Err(_) => DeviceClass::Desktop,
    }
}

/// The load mode named by the transport's flag: a fragment when the flag is
/// there and not zero, a full load otherwise.
pub open spec fn mode_of(flag: Option<i32>) -> RequestMode {
    match flag {
        Some(value) => if value != 0 {
            RequestMode::Fragment
        } else {
            RequestMode::FullLoad
        },
        None => RequestMode::FullLoad,
    }
}

/// The view of a user-agent string that may be absent.
pub open spec fn user_agent_view(user_agent: Option<&str>) -> Option<Seq<char>> {
    match user_agent {
        Some(ua) => Some(ua@),
        None => None,
    }
}

/// Classifies the client by its user-agent string.
pub fn classify_device(user_agent: Option<&str>) -> (r: Result<DeviceClass, ClassificationError>)
    ensures
        r == classification_of(user_agent_view(user_agent)),
{
    match user_agent {
        Some(ua) => {
            proof {
                reveal_strlit("Mobile");
                assert("Mobile"@ =~= mobile_marker());
            }
            if contains(ua, "Mobile") {
                Ok(DeviceClass::Mobile)
            } else {
                Ok(DeviceClass::Desktop)
            }
        },
        None => Err(ClassificationError::MissingUserAgent),
    }
}

/// Classifies the client, falling back to the desktop class where the
/// user-agent string is absent.
pub fn classify_device_or_default(user_agent: Option<&str>) -> (device: DeviceClass)
    ensures
        device == served_device(user_agent_view(user_agent)),
{
    match classify_device(user_agent) {
        Ok(device) => device,
        Err(_) => DeviceClass::Desktop,
    }
}

/// Whether the client is a desktop one.
pub fn is_desctop(user_agent: Option<&str>) -> (r: Result<bool, ClassificationError>)
    ensures
        r == match classification_of(user_agent_view(user_agent)) {
            Ok(device) => Ok::<bool, ClassificationError>(device == DeviceClass::Desktop),
            Err(e) => Err(e),
        },
{
    match classify_device(user_agent) {
        Ok(DeviceClass::Desktop) => Ok(true),
        Ok(DeviceClass::Mobile) => Ok(false),
        Err(e) => Err(e),
    }
}

/// Classifies the load mode by the transport's flag.
pub fn classify_mode(flag: Option<i32>) -> (mode: RequestMode)
    ensures
        mode == mode_of(flag),
{
    match flag {
        Some(value) => if value != 0 {
            RequestMode::Fragment
        } else {
            RequestMode::FullLoad
        },
        None => RequestMode::FullLoad,
    }
}

/// Every user-agent string that holds the marker is classified as mobile,
/// every other one as desktop, and only an absent one is an error.
pub proof fn lemma_device_classification(user_agent: Option<Seq<char>>)
    ensures
        user_agent is None <==> classification_of(user_agent) is Err,
        user_agent matches Some(ua) ==> (contains_text(ua, mobile_marker()) ==> classification_of(
            user_agent,
        ) == Ok::<DeviceClass, ClassificationError>(DeviceClass::Mobile)),
        user_agent matches Some(ua) ==> (!contains_text(ua, mobile_marker())
            ==> classification_of(user_agent) == Ok::<DeviceClass, ClassificationError>(
            DeviceClass::Desktop,
        )),
{
}

} // verus!
