//! Write-once configuration: endpoint addresses and payer key material, each
//! filled exactly once before the first read.
use vstd::prelude::*;

verus! {

/// A slot that goes from empty to filled once and never changes after that.
pub struct WriteOnce<T> {
    value: Option<T>,
}

impl<T> WriteOnce<T> {
    /// What the slot holds, if it has been filled.
    pub closed spec fn content(&self) -> Option<T> {
        self.value
    }

    pub fn new() -> (r: Self)
        ensures
            r.content() is None,
    {
        WriteOnce { value: None }
    }

    /// Fills the slot. A second fill is refused: the value is handed back and
    /// the slot keeps what it had.
    pub fn set(&mut self, v: T) -> (r: Result<(), T>)
        ensures
            old(self).content() is None ==> r is Ok && final(self).content() == Some(v),
            old(self).content() is Some ==> r == Err::<(), T>(v) && final(self).content()
                == old(self).content(),
    {
        if self.value.is_some() {
            Err(v)
        } else {
            self.value = Some(v);
            Ok(())
        }
    }

    pub fn get(&self) -> (r: Option<&T>)
        ensures
            r matches Some(x) ==> self.content() == Some(*x),
            r is None <==> self.content() is None,
    {
        match &self.value {
            Some(x) => Some(x),
            None => None,
        }
    }

    pub fn is_set(&self) -> (r: bool)
        ensures
            r == self.content() is Some,
    {
        self.value.is_some()
    }
}

/// Commitment level that the ledger reports an operation at.
#[derive(Clone, Copy, Debug, PartialEq, Eq, Structural)]
pub enum Commitment {
    Processed,
    Confirmed,
    Finalized,
}

/// The commitment that the request endpoint is configured with.
pub const COMMITMENT_LEVEL: Commitment = Commitment::Processed;

/// The commitment that the soft-acceptance poll waits for.
pub const SOFT_COMMITMENT: Commitment = Commitment::Confirmed;

/// The commitment that the durable-acceptance poll waits for.
pub const DURABLE_COMMITMENT: Commitment = Commitment::Finalized;

/// Which slot of the configuration a call found already filled.
#[derive(Clone, Copy, Debug, PartialEq, Eq, Structural)]
pub enum ConfigSlot {
    RpcHttp,
    RpcWs,
    TrxPayer,
}

/// Process-wide settings, each slot written once during start-up.
pub struct Config {
    /// Address of the request/response endpoint.
    pub rpc_http: WriteOnce<String>,
    /// Address of the streaming endpoint.
    pub rpc_ws: WriteOnce<String>,
    /// Key material of the fee payer.
    pub trx_payer: WriteOnce<[u8; 64]>,
}

impl Config {
    /// A configuration with every slot empty.
    pub fn new() -> (r: Self)
        ensures
            r.rpc_http.content() is None,
            r.rpc_ws.content() is None,
            r.trx_payer.content() is None,
    {
        Config { rpc_http: WriteOnce::new(), rpc_ws: WriteOnce::new(), trx_payer: WriteOnce::new() }
    }
}

/// Fills the three slots in order: request endpoint, streaming endpoint, payer.
/// It stops at the first slot found already filled and names it; the slots
/// before it have then been filled, the rest are untouched.
pub fn set_config(config: &mut Config, rpc_http: String, rpc_ws: String, payer: [u8; 64]) -> (r:
    Result<(), ConfigSlot>)
    ensures
        old(config).rpc_http.content() is Some ==> r == Err::<(), ConfigSlot>(ConfigSlot::RpcHttp)
            && *final(config) == *old(config),
        old(config).rpc_http.content() is None && old(config).rpc_ws.content() is Some ==> r == Err::<
            (),
            ConfigSlot,
        >(ConfigSlot::RpcWs) && final(config).rpc_http.content() == Some(rpc_http)
            && final(config).rpc_ws == old(config).rpc_ws && final(config).trx_payer == old(
            config,
        ).trx_payer,
        old(config).rpc_http.content() is None && old(config).rpc_ws.content() is None && old(
            config,
        ).trx_payer.content() is Some ==> r == Err::<(), ConfigSlot>(ConfigSlot::TrxPayer)
            && final(config).rpc_http.content() == Some(rpc_http) && final(config).rpc_ws.content()
            == Some(rpc_ws) && final(config).trx_payer == old(config).trx_payer,
        old(config).rpc_http.content() is None && old(config).rpc_ws.content() is None && old(
            config,
        ).trx_payer.content() is None ==> r is Ok && final(config).rpc_http.content() == Some(
            rpc_http,
        ) && final(config).rpc_ws.content() == Some(rpc_ws) && final(config).trx_payer.content()
            == Some(payer),
{
    if config.rpc_http.set(rpc_http).is_err() {
        return Err(ConfigSlot::RpcHttp);
    }
    if config.rpc_ws.set(rpc_ws).is_err() {
        return Err(ConfigSlot::RpcWs);
    }
    if config.trx_payer.set(payer).is_err() {
        return Err(ConfigSlot::TrxPayer);
    }
    Ok(())
}

} // verus!
