use hawkbit_operator::crd::{
    CommonJdbc, Database, DatabaseOptions, DatabaseVariant, Embedded, Hawkbit, MySQL, PostgreSQL, RabbitExternal,
};
use hawkbit_operator::error::Error;
use hawkbit_operator::objects::meta::ObjectMeta;

#[test]
fn verify_resource() {
    assert_eq!(Hawkbit::KIND, "Hawkbit");
    assert_eq!(Hawkbit::GROUP, "iot.eclipse.org");
    assert_eq!(Hawkbit::VERSION, "v1alpha1");
    assert_eq!(Hawkbit::API_VERSION, "iot.eclipse.org/v1alpha1");
}

fn database(mysql: bool, postgres: bool, embedded: bool) -> Database {
    Database {
        mysql: if mysql { Some(MySQL::default()) } else { None },
        postgres: if postgres { Some(PostgreSQL::default()) } else { None },
        embedded: if embedded { Some(Embedded {}) } else { None },
    }
}

#[test]
fn exactly_one_database_is_a_variant() {
    assert!(matches!(database(true, false, false).variant(), Ok(DatabaseVariant::MySQL(_))));
    assert!(matches!(database(false, true, false).variant(), Ok(DatabaseVariant::PostgreSQL(_))));
    assert!(matches!(database(false, false, true).variant(), Ok(DatabaseVariant::Embedded)));
}

#[test]
fn no_database_or_several_are_an_error() {
    for (mysql, postgres, embedded) in
        vec![(false, false, false), (true, true, false), (true, false, true), (false, true, true), (true, true, true)]
    {
        match database(mysql, postgres, embedded).variant() {
            Err(e) => assert_eq!(e, Error::InvalidDatabase),
            Ok(_) => panic!("{} {} {}", mysql, postgres, embedded),
        }
    }
    assert_eq!(Error::InvalidDatabase.message(), "Invalid database configuration");
}

fn jdbc(host: &str, port: u16, database: &str, url: &str) -> CommonJdbc {
    CommonJdbc {
        host: host.to_string(),
        port,
        database: database.to_string(),
        url: url.to_string(),
        ..CommonJdbc::default()
    }
}

#[test]
fn jdbc_url_is_made_up_from_parts() {
    let mysql = MySQL { jdbc: jdbc("db", 0, "hawkbit", "") };
    assert_eq!(mysql.url().unwrap(), "jdbc:mysql://db:3306/hawkbit");
    let mysql = MySQL { jdbc: jdbc("db", 1234, "hawkbit", "") };
    assert_eq!(mysql.url().unwrap(), "jdbc:mysql://db:1234/hawkbit");
    let postgres = PostgreSQL { jdbc: jdbc("hawkbit-db-postgresql", 0, "hawkbit", "") };
    assert_eq!(postgres.url().unwrap(), "jdbc:postgresql://hawkbit-db-postgresql:5432/hawkbit");
    let postgres = PostgreSQL { jdbc: jdbc("", 65535, "", "") };
    assert_eq!(postgres.url().unwrap(), "jdbc:postgresql://:65535/");
}

#[test]
fn jdbc_url_that_is_given_is_used() {
    let mysql = MySQL { jdbc: jdbc("db", 1, "hawkbit", "jdbc:mysql://other/db?x=y") };
    assert_eq!(mysql.url().unwrap(), "jdbc:mysql://other/db?x=y");
}

#[test]
fn databases_have_names_and_standard_ports() {
    assert_eq!(MySQL::default().jdbc_type(), "mysql");
    assert_eq!(MySQL::default().default_port(), 3306);
    assert_eq!(PostgreSQL::default().jdbc_type(), "postgresql");
    assert_eq!(PostgreSQL::default().default_port(), 5432);
}

#[test]
fn databases_lead_to_what_they_have_in_common() {
    let mysql = MySQL { jdbc: jdbc("db", 7, "x", "") };
    assert_eq!(mysql.host, "db");
    assert_eq!(mysql.common().port, 7);
    let postgres = PostgreSQL { jdbc: jdbc("db", 8, "x", "") };
    assert_eq!(postgres.host, "db");
    assert_eq!(postgres.common().port, 8);
}

#[test]
fn external_broker_has_a_standard_port() {
    let external = RabbitExternal::default();
    assert_eq!(external.port, 5672);
    assert_eq!(external.host, "");
    assert_eq!(external.username, "");
    assert_eq!(external.password_secret.name, "");
}

#[test]
fn an_instance_has_the_name_of_its_resource() {
    let resource = Hawkbit {
        metadata: ObjectMeta { name: Some("default".to_string()), ..ObjectMeta::default() },
        ..Hawkbit::default()
    };
    assert_eq!(resource.name(), "default");
}
