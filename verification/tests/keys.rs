use marketplace::keys::{agent_keys, prover_agent_key, prover_service_keys, KeyError};
use nostr_sdk::{Keys, ToBech32};

fn fresh() -> (String, Vec<u8>) {
    let keys = Keys::generate();
    let text = keys.secret_key().to_bech32().unwrap();
    (text, keys.secret_key().to_secret_bytes().to_vec())
}

#[test]
fn prover_agent_key_reads_nsec_text() {
    let (text, bytes) = fresh();
    assert_eq!(prover_agent_key(&text), Ok(bytes.clone()));
    assert_eq!(bytes.len(), 32);
    assert_eq!(prover_agent_key(&"nsec1notakey".to_string()), Err(KeyError::InvalidProverAgentKey));
    let public = Keys::generate().public_key().to_bech32().unwrap();
    assert_eq!(prover_agent_key(&public), Err(KeyError::InvalidProverAgentKey));
}

#[test]
fn agent_keys_read_the_prover_agent_key_first() {
    let (p, p_bytes) = fresh();
    let (u, u_bytes) = fresh();
    let k = agent_keys(&p, &u).unwrap();
    assert_eq!(k.prover_agent, p_bytes);
    assert_eq!(k.user, u_bytes);
    let bad = "not a key".to_string();
    assert_eq!(agent_keys(&bad, &u), Err(KeyError::InvalidProverAgentKey));
    assert_eq!(agent_keys(&p, &bad), Err(KeyError::InvalidUserKey));
    assert_eq!(agent_keys(&bad, &bad), Err(KeyError::InvalidProverAgentKey));
}

#[test]
fn prover_service_keys_read_the_user_key_first() {
    let (p, p_bytes) = fresh();
    let (u, u_bytes) = fresh();
    let k = prover_service_keys(&u, &p).unwrap();
    assert_eq!(k.prover_agent, p_bytes);
    assert_eq!(k.user, u_bytes);
    let bad = "".to_string();
    assert_eq!(prover_service_keys(&bad, &p), Err(KeyError::InvalidUserKey));
    assert_eq!(prover_service_keys(&u, &bad), Err(KeyError::InvalidProverAgentKey));
    assert_eq!(prover_service_keys(&bad, &bad), Err(KeyError::InvalidUserKey));
}
