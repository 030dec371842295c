use notes_api::startup::{start, StartAction, StartStage, EXIT_NO_CONNECTION, MAX_CONNECTIONS};

#[test]
fn the_pool_holds_ten_connections() {
    assert_eq!(MAX_CONNECTIONS, 10);
    assert_eq!(EXIT_NO_CONNECTION, 1);
}

#[test]
fn the_start_reads_the_connection_string_first() {
    assert_eq!(
        start(StartStage::Begin),
        StartAction::ReadEnvironment {
            notice: "SERVIDOR CRUD".to_string(),
            name: "DATABASE_URL".to_string(),
        }
    );
}

#[test]
fn the_start_ends_at_once_without_a_connection_string() {
    assert_eq!(
        start(StartStage::Environment(None)),
        StartAction::Abort { message: "DATABASE_URL must set".to_string() }
    );
}

#[test]
fn the_start_connects_to_what_the_environment_names() {
    let url = "mysql://notes:pw@db.example:3306/notes";
    assert_eq!(
        start(StartStage::Environment(Some(url.to_string()))),
        StartAction::Connect { url: url.to_string(), max_connections: 10 }
    );
    assert_eq!(
        start(StartStage::Environment(Some(String::new()))),
        StartAction::Connect { url: String::new(), max_connections: 10 }
    );
}

#[test]
fn the_start_exits_with_one_when_the_datastore_refuses() {
    assert_eq!(
        start(StartStage::Connected(Err("PoolTimedOut".to_string()))),
        StartAction::Exit {
            notice: "conexion fallida con la base de datos: PoolTimedOut".to_string(),
            code: 1,
        }
    );
}

#[test]
fn the_start_serves_on_port_8080_of_every_interface() {
    assert_eq!(
        start(StartStage::Connected(Ok(()))),
        StartAction::Serve {
            connected: "Conectado a la base de datos!".to_string(),
            listening: "Servidor esta encendido en el puerto 0.0.0.0:8080".to_string(),
            address: "0.0.0.0:8080".to_string(),
        }
    );
}
