use tenant_ops::errors::ResolutionError;
use tenant_ops::registry::PoolRegistry;
use tenant_ops::tenant::{resolve, tenant_key};

#[test]
fn resolve_extracts_database_name() {
    let artifact = String::from("{\"database_name\":\"acme\"}");
    let r = resolve(Some(&artifact));
    assert_eq!(r, Ok(String::from("acme")));
}

#[test]
fn resolve_missing_artifact_fails_closed() {
    let r = resolve(None);
    assert_eq!(r, Err(ResolutionError::Missing));
}

#[test]
fn resolve_malformed_artifact_fails_closed() {
    let artifact = String::from("not json at all");
    assert_eq!(resolve(Some(&artifact)), Err(ResolutionError::Malformed));

    let wrong_shape = String::from("{\"user\":\"acme\"}");
    assert_eq!(resolve(Some(&wrong_shape)), Err(ResolutionError::Malformed));

    let wrong_type = String::from("{\"database_name\":7}");
    assert_eq!(resolve(Some(&wrong_type)), Err(ResolutionError::Malformed));
}

#[test]
fn tenant_key_concatenates_base_and_name() {
    let base = String::from("postgres://host/");
    let name = String::from("acme");
    assert_eq!(tenant_key(&base, &name), String::from("postgres://host/acme"));
}

#[test]
fn pool_uniqueness_one_construction_per_key() {
    let mut reg = PoolRegistry::new();
    let key = tenant_key(&String::from("postgres://host/"), &String::from("acme"));

    let (first, constructed_first) = reg.get_or_create_pool(&key).unwrap();
    assert!(constructed_first);

    let mut constructions = 1;
    for _ in 0..8 {
        let (again, constructed) = reg.get_or_create_pool(&key).unwrap();
        if constructed {
            constructions += 1;
        }
        assert_eq!(again, first);
    }
    assert_eq!(constructions, 1);
}

#[test]
fn pool_per_tenant_isolation() {
    let mut reg = PoolRegistry::new();
    let acme = String::from("postgres://host/acme");
    let globex = String::from("postgres://host/globex");

    let (acme_pool, c1) = reg.get_or_create_pool(&acme).unwrap();
    let (globex_pool, c2) = reg.get_or_create_pool(&globex).unwrap();
    assert!(c1);
    assert!(c2);
    assert_ne!(acme_pool, globex_pool);

    // interleaved re-access returns the cached pools
    let (a2, ca) = reg.get_or_create_pool(&acme).unwrap();
    let (g2, cg) = reg.get_or_create_pool(&globex).unwrap();
    assert!(!ca);
    assert!(!cg);
    assert_eq!(a2, acme_pool);
    assert_eq!(g2, globex_pool);

    assert_eq!(reg.lookup_pool(&acme), Some(acme_pool));
    assert_eq!(reg.lookup_pool(&String::from("postgres://host/other")), None);
}

#[test]
fn resolution_error_labels() {
    assert_eq!(
        ResolutionError::Missing.label(),
        "tenant unresolved: artifact missing"
    );
    assert_eq!(
        ResolutionError::Malformed.label(),
        "tenant unresolved: artifact malformed"
    );
}
