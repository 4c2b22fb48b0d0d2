use roci::cache::{Gitlabs, GitlabsError};
use roci::config::Gitlab;

fn instance(host: &str) -> Gitlab {
    Gitlab::empty(host.to_string(), false, false)
}

/// Runs one `get` the way the application does: a hit needs nothing else, a
/// miss asks the credential store (counted) and builds a client.
fn get(
    cache: &mut Gitlabs<String>,
    config: &Gitlab,
    store: &mut Vec<String>,
    secret: Result<String, String>,
) -> Result<u64, GitlabsError> {
    if let Some(handle) = cache.lookup(&config.host) {
        return Ok(handle.id);
    }
    store.push(config.host.clone());
    let connect = Gitlabs::<String>::connect(config, secret)?;
    let built: Result<String, String> = Ok(format!("client for {}", connect.host));
    cache.insert(&config.host, built)
}

#[test]
fn distinct_hosts_get_distinct_clients() {
    let mut cache = Gitlabs::new();
    let mut store = vec![];
    let a = get(&mut cache, &instance("a.example"), &mut store, Ok("t1".into())).unwrap();
    let b = get(&mut cache, &instance("b.example"), &mut store, Ok("t2".into())).unwrap();
    assert_ne!(a, b);
    assert_eq!(cache.lookup(&"a.example".to_string()).unwrap().client, "client for a.example");
    assert_eq!(cache.lookup(&"b.example".to_string()).unwrap().client, "client for b.example");
}

#[test]
fn second_get_is_cached_and_asks_store_once() {
    let mut cache = Gitlabs::new();
    let mut store = vec![];
    let cfg = instance("a.example");
    let first = get(&mut cache, &cfg, &mut store, Ok("t".into())).unwrap();
    let second = get(&mut cache, &cfg, &mut store, Ok("t".into())).unwrap();
    assert_eq!(first, second);
    assert_eq!(store, vec!["a.example".to_string()]);
}

#[test]
fn invalidate_forces_store_query_and_new_identity() {
    let mut cache = Gitlabs::new();
    let mut store = vec![];
    let cfg = instance("a.example");
    let first = get(&mut cache, &cfg, &mut store, Ok("t".into())).unwrap();
    cache.invalidate(&cfg.host);
    assert!(cache.lookup(&cfg.host).is_none());
    let second = get(&mut cache, &cfg, &mut store, Ok("t".into())).unwrap();
    assert_ne!(first, second);
    assert_eq!(store.len(), 2);
}

#[test]
fn credential_failure_adds_no_entry() {
    let mut cache = Gitlabs::new();
    let mut store = vec![];
    let cfg = instance("a.example");
    let r = get(&mut cache, &cfg, &mut store, Err("no secret".into()));
    assert_eq!(r, Err(GitlabsError::Keyring("no secret".into())));
    assert!(cache.lookup(&cfg.host).is_none());
}

#[test]
fn build_failure_adds_no_entry() {
    let mut cache: Gitlabs<String> = Gitlabs::new();
    let r = cache.insert(&"a.example".to_string(), Err("handshake".into()));
    assert_eq!(r, Err(GitlabsError::Gitlab("handshake".into())));
    assert!(cache.lookup(&"a.example".to_string()).is_none());
}

#[test]
fn existing_entry_wins_over_second_build() {
    let mut cache: Gitlabs<String> = Gitlabs::new();
    let host = "a.example".to_string();
    let first = cache.insert(&host, Ok("one".into())).unwrap();
    let again = cache.insert(&host, Ok("two".into())).unwrap();
    assert_eq!(first, again);
    assert_eq!(cache.lookup(&host).unwrap().client, "one");
}

#[test]
fn connect_copies_transport_flags_and_token() {
    let cfg = Gitlab::empty("a.example".to_string(), true, true);
    let c = Gitlabs::<String>::connect(&cfg, Ok("secret".into())).unwrap();
    assert_eq!(c.host, "a.example");
    assert_eq!(c.token, "secret");
    assert!(c.insecure);
    assert!(c.cert_insecure);
}

#[test]
fn invalidate_keeps_other_hosts() {
    let mut cache: Gitlabs<String> = Gitlabs::new();
    let a = cache.insert(&"a".to_string(), Ok("A".into())).unwrap();
    let b = cache.insert(&"b".to_string(), Ok("B".into())).unwrap();
    let c = cache.insert(&"c".to_string(), Ok("C".into())).unwrap();
    cache.invalidate(&"b".to_string());
    assert_eq!(cache.lookup(&"a".to_string()).unwrap().id, a);
    assert_eq!(cache.lookup(&"c".to_string()).unwrap().id, c);
    assert!(cache.lookup(&"b".to_string()).is_none());
    let b2 = cache.insert(&"b".to_string(), Ok("B2".into())).unwrap();
    assert!(b2 != a && b2 != b && b2 != c);
}
