//! What a deployment of the stack is made from.

use vstd::prelude::*;

use crate::text::views;

verus! {

/// Image tags of the explorer services.
pub struct DockerTags {
    pub blockscout: String,
    pub frontend: String,
    pub stats: String,
    pub visualizer: String,
    pub sig_provider: String,
    pub smart_contract_verifier: String,
}

/// Paths of the environment files of the explorer services.
pub struct EnvFiles {
    pub blockscout: String,
    pub frontend: String,
    pub visualizer: String,
    pub stats: String,
    pub smart_contract_verifier: String,
}

/// The text of each environment file, as read from `EnvFiles`.
pub struct EnvContents {
    pub blockscout: String,
    pub frontend: String,
    pub visualizer: String,
    pub stats: String,
    pub smart_contract_verifier: String,
}

/// The input of a deployment.
pub struct OrbitStackConfig {
    pub parent_chain_rpc: String,
    pub chain_id: u64,
    pub chain_name: String,
    pub chain_info_json: String,
    pub data_dir: String,
    pub is_sequencer: bool,
    pub enable_das: bool,
    pub docker_tags: DockerTags,
    pub env_files: EnvFiles,
    pub sequencer_endpoint: Option<String>,
    pub das_endpoints: Option<Vec<String>>,
    pub das_online_url_list: Option<String>,
}

pub struct TagsView {
    pub blockscout: Seq<char>,
    pub frontend: Seq<char>,
    pub stats: Seq<char>,
    pub visualizer: Seq<char>,
    pub sig_provider: Seq<char>,
    pub smart_contract_verifier: Seq<char>,
}

pub struct EnvContentsView {
    pub blockscout: Seq<char>,
    pub frontend: Seq<char>,
    pub visualizer: Seq<char>,
    pub stats: Seq<char>,
    pub smart_contract_verifier: Seq<char>,
}

/// What the service table reads of a configuration.
pub struct ConfigView {
    pub parent_chain_rpc: Seq<char>,
    pub chain_id: u64,
    pub chain_name: Seq<char>,
    pub chain_info_json: Seq<char>,
    pub data_dir: Seq<char>,
    pub is_sequencer: bool,
    pub enable_das: bool,
    pub tags: TagsView,
    pub sequencer_endpoint: Option<Seq<char>>,
    pub das_endpoints: Option<Seq<Seq<char>>>,
    pub das_online_url_list: Option<Seq<char>>,
}

impl View for DockerTags {
    type V = TagsView;

    open spec fn view(&self) -> TagsView {
        TagsView {
            blockscout: self.blockscout@,
            frontend: self.frontend@,
            stats: self.stats@,
            visualizer: self.visualizer@,
            sig_provider: self.sig_provider@,
            smart_contract_verifier: self.smart_contract_verifier@,
        }
    }
}

impl View for EnvContents {
    type V = EnvContentsView;

    open spec fn view(&self) -> EnvContentsView {
        EnvContentsView {
            blockscout: self.blockscout@,
            frontend: self.frontend@,
            visualizer: self.visualizer@,
            stats: self.stats@,
            smart_contract_verifier: self.smart_contract_verifier@,
        }
    }
}

/// The view of an optional string.
pub open spec fn opt_view(o: Option<String>) -> Option<Seq<char>> {
    match o {
        Some(s) => Some(s@),
        None => None,
    }
}

impl View for OrbitStackConfig {
    type V = ConfigView;

    open spec fn view(&self) -> ConfigView {
        ConfigView {
            parent_chain_rpc: self.parent_chain_rpc@,
            chain_id: self.chain_id,
            chain_name: self.chain_name@,
            chain_info_json: self.chain_info_json@,
            data_dir: self.data_dir@,
            is_sequencer: self.is_sequencer,
            enable_das: self.enable_das,
            tags: self.docker_tags@,
            sequencer_endpoint: opt_view(self.sequencer_endpoint),
            das_endpoints: match self.das_endpoints {
                Some(v) => Some(views(v@)),
                None => None,
            },
            das_online_url_list: opt_view(self.das_online_url_list),
        }
    }
}

} // verus!
