//! The bot's configuration as loaded from its file, and the flattened values
//! that the gateway and the plugins read.

use vstd::prelude::*;
use crate::text::{nat_text, push_decimal};

verus! {

#[verifier::external_type_specification]
#[verifier::external_body]
pub struct ExPathBuf(std::path::PathBuf);

/// Address and token of one side of the backend's HTTP link.
#[derive(Debug, Clone)]
pub struct HttpConfig {
    pub enable: bool,
    pub host: String,
    pub port: u16,
    pub token: String,
}

/// The reference backend's section of the configuration.
#[derive(Debug, Clone)]
pub struct NapCatConfig {
    pub enable: bool,
    pub http_servers: HttpConfig,
    pub http_clients: HttpConfig,
}

/// The configuration file's content.
#[derive(Debug, Clone)]
pub struct Config {
    pub napcat: NapCatConfig,
    pub path: String,
    pub bot_id: u64,
    pub master: u64,
    pub group_list: Vec<u64>,
    pub bilibili_live_push_list: Vec<u64>,
    pub festival_push_list: Vec<u64>,
    pub tudou_live_id: u64,
    pub ai_voice_type: String,
}

/// The process-wide configuration values, read-only once built.
#[derive(Debug, Clone)]
pub struct Value {
    pub path: String,
    pub data_path: String,
    pub plugin_path: String,
    pub core_path: String,
    pub bot_id: u64,
    pub master: u64,
    pub group_list: Vec<u64>,
    pub bilibili_live_push_list: Vec<u64>,
    pub festival_push_list: Vec<u64>,
    pub tudou_live_id: u64,
    pub ai_voice_type: String,
    pub napcat: bool,
    pub ncs_host: String,
    pub ncs_port: u16,
    pub ncs_token: String,
    pub ncc_host: String,
    pub ncc_port: u16,
    pub ncc_token: String,
}

/// Relies on `PathBuf::from`: the path whose text is `text`.
#[verifier::external_body]
fn path_buf_of(text: &String) -> std::path::PathBuf {
    std::path::PathBuf::from(text)
}

fn joined(base: &String, suffix: &str) -> (r: String)
    ensures
        r@ == base@ + suffix@,
{
    let mut text = base.clone();
    text.append(suffix);
    text
}

impl Value {
    /// The values of a loaded configuration. The backend's address fields
    /// are filled only where the reference backend is enabled; otherwise
    /// they are empty and zero.
    pub fn new(config: &Config) -> (r: Self)
        ensures
            r.path@ == config.path@,
            r.data_path@ == config.path@ + "/data"@,
            r.plugin_path@ == config.path@ + "/plugins"@,
            r.core_path@ == config.path@ + "/src/core/"@,
            r.bot_id == config.bot_id,
            r.master == config.master,
            r.group_list@ == config.group_list@,
            r.bilibili_live_push_list@ == config.bilibili_live_push_list@,
            r.festival_push_list@ == config.festival_push_list@,
            r.tudou_live_id == config.tudou_live_id,
            r.ai_voice_type@ == config.ai_voice_type@,
            r.napcat == config.napcat.enable,
            r.ncs_host@ == (if r.napcat { config.napcat.http_servers.host@ } else { Seq::empty() }),
            r.ncs_port == (if r.napcat { config.napcat.http_servers.port } else { 0 }),
            r.ncs_token@ == (if r.napcat { config.napcat.http_servers.token@ } else { Seq::empty() }),
            r.ncc_host@ == (if r.napcat { config.napcat.http_clients.host@ } else { Seq::empty() }),
            r.ncc_port == (if r.napcat { config.napcat.http_clients.port } else { 0 }),
            r.ncc_token@ == (if r.napcat { config.napcat.http_clients.token@ } else { Seq::empty() }),
    {
        let path = config.path.clone();
        let data_path = joined(&path, "/data");
        let plugin_path = joined(&path, "/plugins");
        let core_path = joined(&path, "/src/core/");
        let mut value = Value {
            path,
            data_path,
            plugin_path,
            core_path,
            bot_id: config.bot_id,
            master: config.master,
            group_list: config.group_list.clone(),
            bilibili_live_push_list: config.bilibili_live_push_list.clone(),
            festival_push_list: config.festival_push_list.clone(),
            tudou_live_id: config.tudou_live_id,
            ai_voice_type: config.ai_voice_type.clone(),
            napcat: config.napcat.enable,
            ncs_host: String::new(),
            ncs_port: 0,
            ncs_token: String::new(),
            ncc_host: String::new(),
            ncc_port: 0,
            ncc_token: String::new(),
        };
        if value.napcat {
            value.ncs_host = config.napcat.http_servers.host.clone();
            value.ncs_port = config.napcat.http_servers.port;
            value.ncs_token = config.napcat.http_servers.token.clone();
            value.ncc_host = config.napcat.http_clients.host.clone();
            value.ncc_port = config.napcat.http_clients.port;
            value.ncc_token = config.napcat.http_clients.token.clone();
        }
        value
    }

    /// The backend's base URL: `host:port` of its server side where the
    /// reference backend is enabled, empty otherwise.
    pub open spec fn base_url_view(&self) -> Seq<char> {
        if self.napcat {
            self.ncs_host@ + seq![':'] + nat_text(self.ncs_port as nat)
        } else {
            Seq::empty()
        }
    }

    /// The backend's access token: the server side's token where the
    /// reference backend is enabled, empty otherwise.
    pub open spec fn access_token_view(&self) -> Seq<char> {
        if self.napcat {
            self.ncs_token@
        } else {
            Seq::empty()
        }
    }

    /// The base URL to which the backend's actions are posted.
    pub fn base_url(&self) -> (r: String)
        ensures
            r@ == self.base_url_view(),
    {
        if self.napcat {
            let mut url = self.ncs_host.clone();
            url.append(":");
            push_decimal(&mut url, self.ncs_port as u64);
            proof {
                reveal_strlit(":");
            }
            url
        } else {
            String::new()
        }
    }

    /// The token that authorises the backend's actions.
    pub fn access_token(&self) -> (r: String)
        ensures
            r@ == self.access_token_view(),
    {
        if self.napcat {
            self.ncs_token.clone()
        } else {
            String::new()
        }
    }

    /// The data directory as a path.
    pub fn data_path_buf(&self) -> std::path::PathBuf {
        path_buf_of(&self.data_path)
    }

    /// The plugin directory as a path.
    pub fn plugin_path_buf(&self) -> std::path::PathBuf {
        path_buf_of(&self.plugin_path)
    }
}

} // verus!
