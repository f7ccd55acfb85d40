//! The backend's settings, read from environment variables.

use vstd::prelude::*;
use vstd::string::StringExecFns;

use vstd::utf8::encode_utf8;

use crate::chain::{address_digits, is_address_text, parse_contract_address};
use crate::crypto::hex_pairs;
use crate::api::{contact_lookup_request, contact_uri, json_headers, text_pairs, ApiRequest};

verus! {

/// An environment variable that the backend needs.
#[derive(Debug, Clone, Copy, PartialEq, Eq, Structural)]
pub enum EnvVar {
    RpcEndpointEth,
    RpcEndpointOp,
    Contract,
    DefaultSender,
    MailApiUrl,
    MailApiKey,
    TemplateId,
    Pk,
}

/// The name of an environment variable.
pub open spec fn env_var_name(v: EnvVar) -> Seq<char> {
    match v {
        EnvVar::RpcEndpointEth => "RPC_ENDPOINT_ETH"@,
        EnvVar::RpcEndpointOp => "RPC_ENDPOINT_OP"@,
        EnvVar::Contract => "CONTRACT"@,
        EnvVar::DefaultSender => "DEFAULT_SENDER"@,
        EnvVar::MailApiUrl => "MAIL_API_URL"@,
        EnvVar::MailApiKey => "MAIL_API_KEY"@,
        EnvVar::TemplateId => "TEMPLATE_ID"@,
        EnvVar::Pk => "PK"@,
    }
}

impl EnvVar {
    /// The variable's name.
    pub fn name(&self) -> (s: &'static str)
        ensures
            s@ == env_var_name(*self),
    {
        match self {
            EnvVar::RpcEndpointEth => "RPC_ENDPOINT_ETH",
            EnvVar::RpcEndpointOp => "RPC_ENDPOINT_OP",
            EnvVar::Contract => "CONTRACT",
            EnvVar::DefaultSender => "DEFAULT_SENDER",
            EnvVar::MailApiUrl => "MAIL_API_URL",
            EnvVar::MailApiKey => "MAIL_API_KEY",
            EnvVar::TemplateId => "TEMPLATE_ID",
            EnvVar::Pk => "PK",
        }
    }

    /// The message with which the backend stops when the variable is unset.
    pub fn not_set_message(&self) -> (m: String)
        ensures
            m@ == env_var_name(*self) + " is not set"@,
    {
        let mut m = String::from_str(self.name());
        m.append(" is not set");
        m
    }
}

/// The variables are the ones the backend documents in its `.env` example.
pub proof fn lemma_env_var_names()
    ensures
        env_var_name(EnvVar::RpcEndpointEth) == "RPC_ENDPOINT_ETH"@,
        env_var_name(EnvVar::RpcEndpointOp) == "RPC_ENDPOINT_OP"@,
        env_var_name(EnvVar::Contract) == "CONTRACT"@,
        env_var_name(EnvVar::DefaultSender) == "DEFAULT_SENDER"@,
        env_var_name(EnvVar::MailApiUrl) == "MAIL_API_URL"@,
        env_var_name(EnvVar::MailApiKey) == "MAIL_API_KEY"@,
        env_var_name(EnvVar::TemplateId) == "TEMPLATE_ID"@,
        env_var_name(EnvVar::Pk) == "PK"@,
{
}

/// Different variables have different names.
pub proof fn lemma_env_var_names_distinct(a: EnvVar, b: EnvVar)
    requires
        a != b,
    ensures
        env_var_name(a) != env_var_name(b),
{
    reveal_strlit("RPC_ENDPOINT_ETH");
    reveal_strlit("RPC_ENDPOINT_OP");
    reveal_strlit("CONTRACT");
    reveal_strlit("DEFAULT_SENDER");
    reveal_strlit("MAIL_API_URL");
    reveal_strlit("MAIL_API_KEY");
    reveal_strlit("TEMPLATE_ID");
    reveal_strlit("PK");
    if env_var_name(a) == env_var_name(b) {
        assert(env_var_name(a).len() == env_var_name(b).len());
        if env_var_name(a).len() == 12 {
            assert(env_var_name(a)[9] == env_var_name(b)[9]);
        }
    }
}

/// The backend's settings.
#[derive(Debug)]
pub struct Config {
    /// The websocket endpoints of the chains to scan: Ethereum, then Optimism.
    pub rpcs: Vec<String>,
    pub contract: String,
    pub mail_api_url: String,
    pub mail_api_key: String,
    pub default_sender: String,
    pub decryption_key: String,
    pub mail_api_template: String,
}

impl Config {
    /// The settings from the values of the environment variables, each `None`
    /// where unset; the first unset variable, in the order in which the
    /// backend reads them, is the error.
    pub fn from_env_values(
        eth_rpc: Option<String>,
        op_rpc: Option<String>,
        contract: Option<String>,
        default_sender: Option<String>,
        mail_api_url: Option<String>,
        mail_api_key: Option<String>,
        mail_api_template: Option<String>,
        decryption_key: Option<String>,
    ) -> (r: Result<Config, EnvVar>)
        ensures
            eth_rpc is None ==> r == Err::<Config, EnvVar>(EnvVar::RpcEndpointEth),
            eth_rpc is Some && op_rpc is None ==> r == Err::<Config, EnvVar>(EnvVar::RpcEndpointOp),
            eth_rpc is Some && op_rpc is Some && contract is None ==> r == Err::<Config, EnvVar>(
                EnvVar::Contract,
            ),
            eth_rpc is Some && op_rpc is Some && contract is Some && default_sender is None ==> r
                == Err::<Config, EnvVar>(EnvVar::DefaultSender),
            eth_rpc is Some && op_rpc is Some && contract is Some && default_sender is Some
                && mail_api_url is None ==> r == Err::<Config, EnvVar>(EnvVar::MailApiUrl),
            eth_rpc is Some && op_rpc is Some && contract is Some && default_sender is Some
                && mail_api_url is Some && mail_api_key is None ==> r == Err::<Config, EnvVar>(
                EnvVar::MailApiKey,
            ),
            eth_rpc is Some && op_rpc is Some && contract is Some && default_sender is Some
                && mail_api_url is Some && mail_api_key is Some && mail_api_template is None ==> r
                == Err::<Config, EnvVar>(EnvVar::TemplateId),
            eth_rpc is Some && op_rpc is Some && contract is Some && default_sender is Some
                && mail_api_url is Some && mail_api_key is Some && mail_api_template is Some
                && decryption_key is None ==> r == Err::<Config, EnvVar>(EnvVar::Pk),
            r matches Ok(c) ==> {
                &&& c.rpcs@ == seq![eth_rpc->0, op_rpc->0]
                &&& c.contract == contract->0
                &&& c.default_sender == default_sender->0
                &&& c.mail_api_url == mail_api_url->0
                &&& c.mail_api_key == mail_api_key->0
                &&& c.mail_api_template == mail_api_template->0
                &&& c.decryption_key == decryption_key->0
            },
            (eth_rpc is Some && op_rpc is Some && contract is Some && default_sender is Some
                && mail_api_url is Some && mail_api_key is Some && mail_api_template is Some
                && decryption_key is Some) ==> r is Ok,
    {
        let eth_rpc = match eth_rpc {
            Some(v) => v,
            None => return Err(EnvVar::RpcEndpointEth),
        };
        let op_rpc = match op_rpc {
            Some(v) => v,
            None => return Err(EnvVar::RpcEndpointOp),
        };
        let contract = match contract {
            Some(v) => v,
            None => return Err(EnvVar::Contract),
        };
        let default_sender = match default_sender {
            Some(v) => v,
            None => return Err(EnvVar::DefaultSender),
        };
        let mail_api_url = match mail_api_url {
            Some(v) => v,
            None => return Err(EnvVar::MailApiUrl),
        };
        let mail_api_key = match mail_api_key {
            Some(v) => v,
            None => return Err(EnvVar::MailApiKey),
        };
        let mail_api_template = match mail_api_template {
            Some(v) => v,
            None => return Err(EnvVar::TemplateId),
        };
        let decryption_key = match decryption_key {
            Some(v) => v,
            None => return Err(EnvVar::Pk),
        };
        let mut rpcs: Vec<String> = Vec::new();
        rpcs.push(eth_rpc);
        rpcs.push(op_rpc);
        Ok(
            Config {
                rpcs,
                contract,
                mail_api_url,
                mail_api_key,
                default_sender,
                decryption_key,
                mail_api_template,
            },
        )
    }

    /// The address of the postal contract whose events are scanned, parsed
    /// from its configured text; `None` where that is no address.
    pub fn contract_address(&self) -> (r: Option<[u8; 20]>)
        ensures
            r is Some <==> is_address_text(encode_utf8(self.contract@)),
            r matches Some(a) ==> a@ == hex_pairs(address_digits(encode_utf8(self.contract@))),
    {
        parse_contract_address(self.contract.as_str())
    }

    /// The request that fetches the backend's own sender contact.
    pub fn default_sender_request(&self) -> (r: ApiRequest)
        ensures
            r.uri@ == contact_uri(self.mail_api_url@, self.default_sender@),
            text_pairs(r.headers@) == json_headers(self.mail_api_key@),
    {
        contact_lookup_request(
            self.mail_api_url.as_str(),
            self.mail_api_key.as_str(),
            self.default_sender.as_str(),
        )
    }
}

} // verus!
