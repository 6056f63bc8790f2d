use lattice::entity::Context;
use lattice::identity::{FirebaseIdentifier, Identifier, VerificationError};
use lattice::keys::KeyEntry;
use lattice::object_id::{ObjectId, ObjectRef};
use mongodb::options::{ClientOptions, ServerAddress};

#[test]
fn context_holds_the_database() {
    let runtime = tokio::runtime::Runtime::new().unwrap();
    runtime.block_on(async {
        let address = ServerAddress::Tcp { host: "localhost".to_owned(), port: Some(27017) };
        let options = ClientOptions::builder().hosts(vec![address]).build();
        let client = mongodb::Client::with_options(options).unwrap();
        let context = Context::new(client.database("lattice"));
        assert_eq!(context.database.name(), "lattice");
        let other = Context::new(client.database("archive"));
        assert_eq!(other.database.name(), "archive");
    });
}

#[test]
fn identifiers_compare_by_their_bytes() {
    let a = ObjectId::from_bytes([7; 12]);
    let b = ObjectId::parse_str("070707070707070707070707").unwrap();
    let c = ObjectId::from_bytes([7, 7, 7, 7, 7, 7, 7, 7, 7, 7, 7, 8]);
    assert_eq!(a, b);
    assert_ne!(a, c);
    assert_eq!(ObjectRef::new(a), ObjectRef::new(b));
    assert_ne!(ObjectRef::new(a), ObjectRef::new(c));
}

fn verify_with(identifier: &impl Identifier, token: &str) -> Option<VerificationError> {
    let keys: Vec<KeyEntry> = Vec::new();
    identifier.identify(token, &keys, 0).err()
}

#[test]
fn any_identifier_can_stand_in() {
    let identifier = FirebaseIdentifier::new("project".to_owned(), 30);
    assert_eq!(verify_with(&identifier, "no token"), Some(VerificationError::MalformedToken));
}
