//! The database that an instance is given is the one that its server uses.

use vstd::prelude::*;

use crate::controller::server;
use crate::crd;
use crate::crd::{CommonJdbcModel, DatabaseModel, DatabaseOptions, HawkbitModel, MySQL, PostgreSQL};
use crate::entries;
use crate::install;
use crate::laws::serving;
use crate::laws::wiring;
use crate::objects::pod::EnvVar;
use crate::objects::workload::DeploymentModel;
use crate::text;

verus! {

/// The one kind of database that is given is the one that is used, with all that is said of it.
pub proof fn lemma_given_database(database: DatabaseModel)
    ensures
        (database.variant() matches Some(crd::DatabaseVariantModel::MySQL(m)) && database.mysql == Some(m)) <==> (
        database.mysql is Some && database.postgres is None && database.embedded is None),
        (database.variant() matches Some(crd::DatabaseVariantModel::PostgreSQL(p)) && database.postgres == Some(p))
            <==> (database.mysql is None && database.postgres is Some && database.embedded is None),
        (database.variant() matches Some(crd::DatabaseVariantModel::Embedded)) <==> (database.mysql is None
            && database.postgres is None && database.embedded is Some),
        database.mysql is None && database.postgres is None && database.embedded is None ==> database.variant() is None,
        database.mysql is Some && database.postgres is Some ==> database.variant() is None,
        database.mysql is Some && database.embedded is Some ==> database.variant() is None,
        database.postgres is Some && database.embedded is Some ==> database.variant() is None,
{
}

/// A URL that is given is used as it is, whatever host, port, database and protocol are.
pub proof fn lemma_given_url(protocol: Seq<char>, standard_port: u16, jdbc: CommonJdbcModel)
    requires
        jdbc.url.len() > 0,
    ensures
        crd::jdbc_url(protocol, standard_port, jdbc) == jdbc.url,
{
}

/// Without a URL, one is made up from protocol, host, port and database; the port is the standard one just
/// where none is given. User and password play no part in it.
pub proof fn lemma_made_up_url(protocol: Seq<char>, standard_port: u16, jdbc: CommonJdbcModel)
    requires
        jdbc.url.len() == 0,
    ensures
        jdbc.port > 0 ==> crd::jdbc_url(protocol, standard_port, jdbc) == "jdbc:"@ + protocol + "://"@ + jdbc.host
            + ":"@ + text::decimal(jdbc.port as nat) + "/"@ + jdbc.database,
        jdbc.port == 0 ==> crd::jdbc_url(protocol, standard_port, jdbc) == "jdbc:"@ + protocol + "://"@ + jdbc.host
            + ":"@ + text::decimal(standard_port as nat) + "/"@ + jdbc.database,
{
}

/// The URL begins with the protocol and the host, and ends with the database.
pub proof fn lemma_parts_of_url(protocol: Seq<char>, standard_port: u16, jdbc: CommonJdbcModel)
    requires
        jdbc.url.len() == 0,
    ensures
        ("jdbc:"@ + protocol + "://"@ + jdbc.host + ":"@).is_prefix_of(crd::jdbc_url(protocol, standard_port, jdbc)),
        ("/"@ + jdbc.database).is_suffix_of(crd::jdbc_url(protocol, standard_port, jdbc)),
{
    let port = text::decimal(
        if jdbc.port > 0 {
            jdbc.port as nat
        } else {
            standard_port as nat
        },
    );
    let front = "jdbc:"@ + protocol + "://"@ + jdbc.host + ":"@;
    let back = "/"@ + jdbc.database;
    assert(crd::jdbc_url(protocol, standard_port, jdbc) =~= front + port + back);
    assert(front.is_prefix_of(front + port + back));
    assert(back.is_suffix_of(front + port + back)) by {
        assert((front + port + back).subrange((front + port).len() as int, (front + port + back).len() as int) =~= back);
    }
}

/// The protocols and standard ports of the databases, and that they are used with what they have in common.
pub proof fn lemma_protocols(mysql: MySQL, postgres: PostgreSQL)
    ensures
        mysql.protocol() == "mysql"@,
        mysql.standard_port() == 3306,
        mysql.jdbc() == mysql.deep_view().jdbc,
        postgres.protocol() == "postgresql"@,
        postgres.standard_port() == 5432,
        postgres.jdbc() == postgres.deep_view().jdbc,
{
}

/// Any database that is reached through JDBC gives the server its URL, its user and its password.
pub proof fn lemma_common_variables(protocol: Seq<char>, standard_port: u16, jdbc: CommonJdbcModel)
    ensures
        ({
            let env = server::jdbc_env(protocol, standard_port, jdbc);
            &&& env.len() == 3
            &&& env[0] == install::env_value("SPRING_DATASOURCE_URL"@, crd::jdbc_url(protocol, standard_port, jdbc))
            &&& env[1] == install::env_value("SPRING_DATASOURCE_USERNAME"@, jdbc.username)
            &&& env[2] == install::env_secret(
                "SPRING_DATASOURCE_PASSWORD"@,
                jdbc.password_secret.name,
                jdbc.password_secret.field,
            )
            &&& jdbc.url.len() > 0 ==> env[0].value == Some(jdbc.url)
        }),
{
}

/// The server's URL, user and password are those of the MySQL database that is given.
pub proof fn lemma_server_uses_mysql(
    deployment: DeploymentModel,
    resource: HawkbitModel,
    has_openshift: bool,
    hash: Seq<char>,
)
    requires
        server::deployment(deployment, resource, has_openshift, hash) is Ok,
        resource.spec.database.mysql is Some,
    ensures
        ({
            let env = serving::server_of(server::deployment(deployment, resource, has_openshift, hash)->Ok_0).env->0;
            let jdbc = resource.spec.database.mysql->0.jdbc;
            let port = if jdbc.port > 0 {
                jdbc.port
            } else {
                3306u16
            };
            &&& serving::is_set(env, "SPRING_JPA_DATABASE"@, "MYSQL"@)
            &&& serving::is_set(env, "SPRING_DATASOURCE_DRIVERCLASSNAME"@, "org.mariadb.jdbc.Driver"@)
            &&& jdbc.url.len() > 0 ==> serving::is_set(env, "SPRING_DATASOURCE_URL"@, jdbc.url)
            &&& jdbc.url.len() == 0 ==> serving::is_set(
                env,
                "SPRING_DATASOURCE_URL"@,
                "jdbc:"@ + "mysql"@ + "://"@ + jdbc.host + ":"@ + text::decimal(port as nat) + "/"@ + jdbc.database,
            )
            &&& serving::is_set(env, "SPRING_DATASOURCE_USERNAME"@, jdbc.username)
            &&& serving::is_taken(
                env,
                "SPRING_DATASOURCE_PASSWORD"@,
                jdbc.password_secret.name,
                jdbc.password_secret.field,
            )
        }),
{
    serving::lemma_server_of(deployment, resource, has_openshift, hash);
    let env = serving::server_of(server::deployment(deployment, resource, has_openshift, hash)->Ok_0).env->0;
    serving::lemma_found(env, 0);
    serving::lemma_found(env, 1);
    serving::lemma_found(env, 2);
    serving::lemma_found(env, 3);
    serving::lemma_found(env, 4);
}

/// The server's URL, user and password are those of the PostgreSQL database that is given.
pub proof fn lemma_server_uses_postgres(
    deployment: DeploymentModel,
    resource: HawkbitModel,
    has_openshift: bool,
    hash: Seq<char>,
)
    requires
        server::deployment(deployment, resource, has_openshift, hash) is Ok,
        resource.spec.database.postgres is Some,
    ensures
        ({
            let env = serving::server_of(server::deployment(deployment, resource, has_openshift, hash)->Ok_0).env->0;
            let jdbc = resource.spec.database.postgres->0.jdbc;
            let port = if jdbc.port > 0 {
                jdbc.port
            } else {
                5432u16
            };
            &&& serving::is_set(env, "SPRING_JPA_DATABASE"@, "POSTGRESQL"@)
            &&& serving::is_set(env, "SPRING_DATASOURCE_DRIVERCLASSNAME"@, "org.postgresql.Driver"@)
            &&& jdbc.url.len() > 0 ==> serving::is_set(env, "SPRING_DATASOURCE_URL"@, jdbc.url)
            &&& jdbc.url.len() == 0 ==> serving::is_set(
                env,
                "SPRING_DATASOURCE_URL"@,
                "jdbc:"@ + "postgresql"@ + "://"@ + jdbc.host + ":"@ + text::decimal(port as nat) + "/"@ + jdbc.database,
            )
            &&& serving::is_set(env, "SPRING_DATASOURCE_USERNAME"@, jdbc.username)
            &&& serving::is_taken(
                env,
                "SPRING_DATASOURCE_PASSWORD"@,
                jdbc.password_secret.name,
                jdbc.password_secret.field,
            )
        }),
{
    serving::lemma_server_of(deployment, resource, has_openshift, hash);
    let env = serving::server_of(server::deployment(deployment, resource, has_openshift, hash)->Ok_0).env->0;
    serving::lemma_found(env, 0);
    serving::lemma_found(env, 1);
    serving::lemma_found(env, 2);
    serving::lemma_found(env, 3);
    serving::lemma_found(env, 4);
}

/// An embedded database lies where its claim is mounted, and takes neither user nor password.
pub proof fn lemma_server_uses_embedded(
    deployment: DeploymentModel,
    resource: HawkbitModel,
    has_openshift: bool,
    hash: Seq<char>,
)
    requires
        server::deployment(deployment, resource, has_openshift, hash) is Ok,
        resource.spec.database.embedded is Some,
    ensures
        ({
            let server = serving::server_of(server::deployment(deployment, resource, has_openshift, hash)->Ok_0);
            let env = server.env->0;
            &&& serving::is_set(env, "SPRING_JPA_DATABASE"@, "H2"@)
            &&& serving::is_set(env, "SPRING_DATASOURCE_DRIVERCLASSNAME"@, "org.h2.Driver"@)
            &&& serving::is_set(env, "SPRING_DATASOURCE_URL"@, "jdbc:h2:/embedded-db/hawkbit"@)
            &&& !entries::holds::<EnvVar>(env, "SPRING_DATASOURCE_USERNAME"@)
            &&& !entries::holds::<EnvVar>(env, "SPRING_DATASOURCE_PASSWORD"@)
            &&& wiring::is_mounted(server, "embedded-db"@, "/embedded-db"@, false)
        }),
{
    serving::lemma_server_of(deployment, resource, has_openshift, hash);
    serving::lemma_server_mounts(deployment, resource, has_openshift, hash);
    let server = serving::server_of(server::deployment(deployment, resource, has_openshift, hash)->Ok_0);
    let env = server.env->0;
    serving::lemma_found(env, 0);
    serving::lemma_found(env, 1);
    serving::lemma_found(env, 2);
    reveal_strlit("SPRING_JPA_DATABASE");
    reveal_strlit("SPRING_DATASOURCE_DRIVERCLASSNAME");
    reveal_strlit("SPRING_DATASOURCE_URL");
    reveal_strlit("SPRING_DATASOURCE_USERNAME");
    reveal_strlit("SPRING_DATASOURCE_PASSWORD");
    reveal_strlit("SPRING_SECURITY_OAUTH2_CLIENT_REGISTRATION_HAWKBIT_CLIENTID");
    reveal_strlit("SPRING_SECURITY_OAUTH2_CLIENT_REGISTRATION_HAWKBIT_CLIENTSECRET");
    reveal_strlit("SPRING_SECURITY_USER_NAME");
    reveal_strlit("SPRING_SECURITY_USER_PASSWORD");
    reveal_strlit("SPRING_RABBITMQ_HOST");
    reveal_strlit("SPRING_RABBITMQ_PORT");
    reveal_strlit("SPRING_RABBITMQ_USERNAME");
    reveal_strlit("SPRING_RABBITMQ_PASSWORD");
    reveal_strlit("org.eclipse.hawkbit.repository.file.path");
    reveal_strlit("hawkbit.artifact.url.protocols.download-http.port");
    reveal_strlit("hawkbit.artifact.url.protocols.download-http.protocol");
    assert forall|i: int| 0 <= i < env.len() implies (#[trigger] env[i]).name.len() != 26 by {
    }
    entries::lemma_position_is::<EnvVar>(env, "SPRING_DATASOURCE_USERNAME"@, env.len() as int);
    entries::lemma_position_is::<EnvVar>(env, "SPRING_DATASOURCE_PASSWORD"@, env.len() as int);
}

} // verus!
