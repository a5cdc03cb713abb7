use ruche::errors::Error;

#[test]
fn capacity_exceeded_message() {
    assert_eq!(Error::CapacityExceeded.message(), "Max capacity reached");
}

#[test]
fn id_unavailable_message() {
    assert_eq!(Error::IdUnavailable.message(), "Unable to get new bee id");
}

#[test]
fn invalid_template_message_is_the_stored_report() {
    let err = Error::InvalidTemplate { message: "Invalid base port '9'".to_string() };

    assert_eq!(err.message(), "Invalid base port '9'");
}

#[test]
fn directory_already_exists_message_names_the_path() {
    let err = Error::DirectoryAlreadyExists { path: "/media/swarm_data_01/node_01".to_string() };

    assert_eq!(err.message(), "Directory '/media/swarm_data_01/node_01' already exists");
}

#[test]
fn not_found_message_names_the_id() {
    assert_eq!(Error::NotFound { id: 42 }.message(), "Unable to find bee node with id 42.");
}

#[test]
fn confirmation_required_message_names_the_id() {
    assert_eq!(
        Error::ConfirmationRequired { id: 99 }.message(),
        "Unable to confirm deletion of bee node with id 99. No request made in last 30sec.",
    );
}

#[test]
fn upstream_message_is_preserved() {
    let err = Error::Upstream { message: "socket closed".to_string() };

    assert_eq!(err.message(), "socket closed");
}
