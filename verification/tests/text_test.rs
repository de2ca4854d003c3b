use afri_mesh::error::AfriMeshError;
use afri_mesh::text::decimal_string;
use libp2p::gossipsub::{PublishError, SubscriptionError};

#[test]
fn decimal_rendering() {
    assert_eq!(decimal_string(0), "0");
    assert_eq!(decimal_string(7), "7");
    assert_eq!(decimal_string(10), "10");
    assert_eq!(decimal_string(12345), "12345");
    assert_eq!(decimal_string(usize::MAX), usize::MAX.to_string());
}

#[test]
fn error_messages() {
    assert_eq!(
        AfriMeshError::ChannelClosed.message(),
        "Channel send error: UI disconnected from Network"
    );
    assert_eq!(
        AfriMeshError::PublishFailed(PublishError::InsufficientPeers).message(),
        "Failed to publish message: InsufficientPeers"
    );
    assert_eq!(
        AfriMeshError::SubscribeFailed(SubscriptionError::NotAllowed).message(),
        "Failed to subscribe to topic: NotAllowed"
    );
    assert_eq!(
        AfriMeshError::Io(std::io::Error::new(std::io::ErrorKind::Other, "disk")).message(),
        "IO Error: disk"
    );
    assert_eq!(
        AfriMeshError::NetworkInit(libp2p::noise::Error::InvalidLength).message(),
        "Network initialization failed: Only keys of length 32 bytes are supported"
    );
    assert_eq!(
        AfriMeshError::ConnectionDenied(libp2p::swarm::ConnectionDenied::new(
            std::io::Error::new(std::io::ErrorKind::Other, "full")
        ))
        .message(),
        "Connection Denied: connection denied"
    );
}
