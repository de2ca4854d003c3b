//! The library's error type and the text it is shown with.

use vstd::prelude::*;

verus! {

#[verifier::external_type_specification]
#[verifier::external_body]
pub struct ExNoiseError(libp2p::noise::Error);

#[verifier::external_type_specification]
#[verifier::external_body]
pub struct ExPublishError(libp2p::gossipsub::PublishError);

#[verifier::external_type_specification]
#[verifier::external_body]
pub struct ExSubscriptionError(libp2p::gossipsub::SubscriptionError);

#[verifier::external_type_specification]
#[verifier::external_body]
pub struct ExIoError(std::io::Error);

#[verifier::external_type_specification]
#[verifier::external_body]
pub struct ExConnectionDenied(libp2p::swarm::ConnectionDenied);

/// Everything that can go wrong in the mesh node.
#[derive(Debug)]
pub enum AfriMeshError {
    NetworkInit(libp2p::noise::Error),
    PublishFailed(libp2p::gossipsub::PublishError),
    SubscribeFailed(libp2p::gossipsub::SubscriptionError),
    Io(std::io::Error),
    ConnectionDenied(libp2p::swarm::ConnectionDenied),
    ChannelClosed,
}

pub type AfriMeshResult<T> = Result<T, AfriMeshError>;

/// The fixed text that the message of each kind of error starts with; for
/// `ChannelClosed` it is the whole message.
pub open spec fn error_label(e: AfriMeshError) -> Seq<char> {
    match e {
        AfriMeshError::NetworkInit(_) => "Network initialization failed: "@,
        AfriMeshError::PublishFailed(_) => "Failed to publish message: "@,
        AfriMeshError::SubscribeFailed(_) => "Failed to subscribe to topic: "@,
        AfriMeshError::Io(_) => "IO Error: "@,
        AfriMeshError::ConnectionDenied(_) => "Connection Denied: "@,
        AfriMeshError::ChannelClosed => "Channel send error: UI disconnected from Network"@,
    }
}

/// The `Display` text of a `libp2p::noise::Error`; nothing is claimed of it.
#[verifier::external_body]
fn noise_error_text(e: &libp2p::noise::Error) -> String {
    format!("{}", e)
}

/// The `Display` text of a `gossipsub::PublishError` (its variant's debug
/// form); nothing is claimed of it.
#[verifier::external_body]
fn publish_error_text(e: &libp2p::gossipsub::PublishError) -> String {
    format!("{}", e)
}

/// The `Display` text of a `gossipsub::SubscriptionError`; nothing is claimed
/// of it.
#[verifier::external_body]
fn subscription_error_text(e: &libp2p::gossipsub::SubscriptionError) -> String {
    format!("{}", e)
}

/// The `Display` text of a `std::io::Error`; nothing is claimed of it.
#[verifier::external_body]
fn io_error_text(e: &std::io::Error) -> String {
    format!("{}", e)
}

/// The `Display` text of a `libp2p::swarm::ConnectionDenied`. Claimed, as its
/// source shows: it is always "connection denied", whatever the cause.
#[verifier::external_body]
fn connection_denied_text(e: &libp2p::swarm::ConnectionDenied) -> (r: String)
    ensures
        r@ == "connection denied"@,
{
    format!("{}", e)
}

impl AfriMeshError {
    /// The human-readable message of the error: its label, followed by the
    /// `Display` text of the underlying cause where there is one. A denied
    /// connection always reads "connection denied". The text of the other
    /// causes is left unsaid: each of them can hold an operating-system I/O
    /// error (an I/O error itself, the I/O variant of a noise error, the
    /// transform failure of a publish error, which a subscription error can
    /// wrap), whose text comes from the C library's error strings and so
    /// depends on the machine and its locale.
    pub fn message(&self) -> (r: String)
        ensures
            error_label(*self).is_prefix_of(r@),
            *self is ChannelClosed ==> r@ == error_label(*self),
            *self is ConnectionDenied ==> r@ == error_label(*self) + "connection denied"@,
    {
        match self {
            AfriMeshError::NetworkInit(e) => {
                let mut s = "Network initialization failed: ".to_owned();
                s.append(noise_error_text(e).as_str());
                s
            },
            AfriMeshError::PublishFailed(e) => {
                let mut s = "Failed to publish message: ".to_owned();
                s.append(publish_error_text(e).as_str());
                s
            },
            AfriMeshError::SubscribeFailed(e) => {
                let mut s = "Failed to subscribe to topic: ".to_owned();
                s.append(subscription_error_text(e).as_str());
                s
            },
            AfriMeshError::Io(e) => {
                let mut s = "IO Error: ".to_owned();
                s.append(io_error_text(e).as_str());
                s
            },
            AfriMeshError::ConnectionDenied(e) => {
                let mut s = "Connection Denied: ".to_owned();
                s.append(connection_denied_text(e).as_str());
                s
            },
            AfriMeshError::ChannelClosed => "Channel send error: UI disconnected from Network".to_owned(),
        }
    }
}

} // verus!
