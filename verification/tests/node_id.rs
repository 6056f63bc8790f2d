use base64::Engine;
use lattice::global_id::{GlobalId, GlobalIdError, ObjectType};
use lattice::membership::{MemberRole, Membership};
use lattice::node_id::{NodeId, NodeIdError};
use lattice::object_id::ObjectId;
use lattice::user::User;

fn sample_id() -> ObjectId {
    ObjectId::parse_str("5f1d7a00ff100293abcdef01").unwrap()
}

fn encode(text: &[u8]) -> String {
    base64::engine::general_purpose::STANDARD.encode(text)
}

#[test]
fn node_id_is_base64_of_the_text() {
    let id = NodeId(GlobalId::new(sample_id(), ObjectType::User));
    assert_eq!(id.serialize(), "VXNlcjo1ZjFkN2EwMGZmMTAwMjkzYWJjZGVmMDE=");
    assert_eq!(id.serialize(), encode(b"User:5f1d7a00ff100293abcdef01"));
}

#[test]
fn node_id_round_trip() {
    for object_type in [ObjectType::User, ObjectType::Membership, ObjectType::MemberRole] {
        let id = NodeId(GlobalId::new(sample_id(), object_type));
        let back = NodeId::deserialize(&id.serialize()).unwrap();
        assert_eq!(back.0.to_text(), id.0.to_text());
    }
}

#[test]
fn node_id_extraction_checks_the_type() {
    let id = NodeId::deserialize(&encode(b"MemberRole:5f1d7a00ff100293abcdef01")).unwrap();
    assert_eq!(id.get::<MemberRole>().unwrap().bytes, sample_id().bytes);
    assert!(id.get::<User>().is_none());
    assert!(id.get::<Membership>().is_none());
}

#[test]
fn node_id_rejects_what_is_not_base64() {
    for text in ["not base64!", "VXNlcjo", "VXNlcjo1Z===", "VXNlcjo1ZjFkN2EwMGZmMTAwMjkzYWJjZGVmMDE"] {
        assert_eq!(NodeId::deserialize(text).unwrap_err(), NodeIdError::InvalidEncoding);
    }
}

#[test]
fn node_id_reads_short_text_as_a_bad_identifier() {
    assert_eq!(
        NodeId::deserialize("VXNlcjo1").unwrap_err(),
        NodeIdError::InvalidId(GlobalIdError::InvalidId)
    );
}

#[test]
fn node_id_rejects_what_is_not_utf8() {
    let text = encode(&[0x55, 0xff, 0xfe, 0x3a]);
    assert_eq!(NodeId::deserialize(&text).unwrap_err(), NodeIdError::InvalidUtf8);
    assert_eq!(NodeId::from_decoded(vec![0xc3]).unwrap_err(), NodeIdError::InvalidUtf8);
}

#[test]
fn node_id_rejects_malformed_text() {
    assert_eq!(
        NodeId::deserialize(&encode(b"User5f1d7a00ff100293abcdef01")).unwrap_err(),
        NodeIdError::InvalidId(GlobalIdError::InvalidStructure)
    );
    assert_eq!(
        NodeId::deserialize(&encode(b"Group:5f1d7a00ff100293abcdef01")).unwrap_err(),
        NodeIdError::InvalidId(GlobalIdError::UnknownType)
    );
    assert_eq!(
        NodeId::deserialize(&encode(b"User:5f1d7a00ff100293abcdef")).unwrap_err(),
        NodeIdError::InvalidId(GlobalIdError::InvalidId)
    );
    assert_eq!(
        NodeId::deserialize("").unwrap_err(),
        NodeIdError::InvalidId(GlobalIdError::InvalidStructure)
    );
}

#[test]
fn from_decoded_reads_the_text() {
    let id = NodeId::from_decoded(b"Membership:5F1D7A00FF100293ABCDEF01".to_vec()).unwrap();
    assert_eq!(id.0.to_text(), "Membership:5f1d7a00ff100293abcdef01");
}
