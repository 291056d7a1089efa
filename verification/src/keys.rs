use vstd::prelude::*;

use nostr_sdk::FromBech32;

verus! {

/// The secret key bytes that the bech32 text `text` (`nsec...`) encodes,
/// or `None` where it encodes none.
pub uninterp spec fn bech32_secret_key(text: Seq<char>) -> Option<Seq<u8>>;

/// Calls `nostr_sdk::SecretKey::from_bech32` and hands back the key's 32
/// bytes (`to_secret_bytes`). The result is a function of the text alone
/// (bech32 decoding, the `nsec` prefix check, the range check of the
/// key); it is named, not written out.
#[verifier::external_body]
fn secret_key_from_bech32(text: &str) -> (r: Option<Vec<u8>>)
    ensures
        r is Some <==> bech32_secret_key(text@) is Some,
        r matches Some(k) ==> k@ == bech32_secret_key(text@)->Some_0,
        r matches Some(k) ==> k@.len() == 32,
{
    match nostr_sdk::SecretKey::from_bech32(text) {
        Ok(key) => Some(key.to_secret_bytes().to_vec()),
        Err(_) => None,
    }
}

/// The two secret keys that the marketplace's agents sign with.
#[derive(Clone, Debug, PartialEq, Eq)]
pub struct AgentKeys {
    pub prover_agent: Vec<u8>,
    pub user: Vec<u8>,
}

/// Which configured secret key does not read as one.
#[derive(Clone, Copy, Debug, PartialEq, Eq, Structural)]
pub enum KeyError {
    InvalidProverAgentKey,
    InvalidUserKey,
}

/// The prover agent's secret key, read from its bech32 text.
pub fn prover_agent_key(prover_agent_sk: &String) -> (r: Result<Vec<u8>, KeyError>)
    ensures
        bech32_secret_key(prover_agent_sk@) is None ==> r == Err::<Vec<u8>, KeyError>(
            KeyError::InvalidProverAgentKey,
        ),
        bech32_secret_key(prover_agent_sk@) is Some ==> (r matches Ok(k) && k@ == bech32_secret_key(
            prover_agent_sk@,
        )->Some_0 && k@.len() == 32),
{
    match secret_key_from_bech32(prover_agent_sk.as_str()) {
        Some(k) => Ok(k),
        None => Err(KeyError::InvalidProverAgentKey),
    }
}

/// Both keys, the prover agent's read first: an unreadable prover agent key
/// is reported before the user key is looked at.
pub fn agent_keys(prover_agent_sk: &String, user_bech32_sk: &String) -> (r: Result<
    AgentKeys,
    KeyError,
>)
    ensures
        bech32_secret_key(prover_agent_sk@) is None ==> r == Err::<AgentKeys, KeyError>(
            KeyError::InvalidProverAgentKey,
        ),
        bech32_secret_key(prover_agent_sk@) is Some && bech32_secret_key(user_bech32_sk@) is None
            ==> r == Err::<AgentKeys, KeyError>(KeyError::InvalidUserKey),
        bech32_secret_key(prover_agent_sk@) is Some && bech32_secret_key(user_bech32_sk@) is Some
            ==> (r matches Ok(k) && k.prover_agent@ == bech32_secret_key(prover_agent_sk@)->Some_0
            && k.user@ == bech32_secret_key(user_bech32_sk@)->Some_0),
{
    let prover_agent = match secret_key_from_bech32(prover_agent_sk.as_str()) {
        Some(k) => k,
        None => return Err(KeyError::InvalidProverAgentKey),
    };
    let user = match secret_key_from_bech32(user_bech32_sk.as_str()) {
        Some(k) => k,
        None => return Err(KeyError::InvalidUserKey),
    };
    Ok(AgentKeys { prover_agent, user })
}

/// Both keys, the user's read first, as the prover service reads them: an
/// unreadable user key is reported before the prover agent key is looked
/// at.
pub fn prover_service_keys(user_bech32_sk: &String, prover_agent_sk: &String) -> (r: Result<
    AgentKeys,
    KeyError,
>)
    ensures
        bech32_secret_key(user_bech32_sk@) is None ==> r == Err::<AgentKeys, KeyError>(
            KeyError::InvalidUserKey,
        ),
        bech32_secret_key(user_bech32_sk@) is Some && bech32_secret_key(prover_agent_sk@) is None
            ==> r == Err::<AgentKeys, KeyError>(KeyError::InvalidProverAgentKey),
        bech32_secret_key(prover_agent_sk@) is Some && bech32_secret_key(user_bech32_sk@) is Some
            ==> (r matches Ok(k) && k.prover_agent@ == bech32_secret_key(prover_agent_sk@)->Some_0
            && k.user@ == bech32_secret_key(user_bech32_sk@)->Some_0),
{
    let user = match secret_key_from_bech32(user_bech32_sk.as_str()) {
        Some(k) => k,
        None => return Err(KeyError::InvalidUserKey),
    };
    let prover_agent = match secret_key_from_bech32(prover_agent_sk.as_str()) {
        Some(k) => k,
        None => return Err(KeyError::InvalidProverAgentKey),
    };
    Ok(AgentKeys { prover_agent, user })
}

} // verus!
