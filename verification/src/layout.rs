//! Where the files of a run live.

use crate::expand::{expand, expansion, home_view, lemma_expansion_keeps_suffix};
use vstd::prelude::*;
use vstd::string::StringExecFns;

verus! {

/// The directory that holds the keys, as a user writes it.
pub const SSH_DIR: &'static str = "~/.ssh";

/// The file that lists the keys allowed to log in, as a user writes it.
pub const AUTHORIZED_KEYS_PATH: &'static str = "~/.ssh/authorized_keys";

/// What follows the name of a private key file in the name of its public
/// key file.
pub const PUBLIC_KEY_SUFFIX: &'static str = ".pub";

/// The two well-known paths of a run, not yet expanded.
#[derive(Clone, Debug, PartialEq, Eq)]
pub struct Config {
    /// The directory that holds the keys.
    pub ssh_dir: String,
    /// The file that lists the keys allowed to log in.
    pub authorized_keys: String,
}

/// A [`Config`] as plain text.
pub ghost struct ConfigView {
    pub ssh_dir: Seq<char>,
    pub authorized_keys: Seq<char>,
}

impl View for Config {
    type V = ConfigView;

    open spec fn view(&self) -> ConfigView {
        ConfigView { ssh_dir: self.ssh_dir@, authorized_keys: self.authorized_keys@ }
    }
}

impl Config {
    /// The conventional paths under the home directory.
    pub fn standard() -> (config: Config)
        ensures
            config@.ssh_dir == SSH_DIR@,
            config@.authorized_keys == AUTHORIZED_KEYS_PATH@,
    {
        Config {
            ssh_dir: String::from_str(SSH_DIR),
            authorized_keys: String::from_str(AUTHORIZED_KEYS_PATH),
        }
    }
}

/// The private key file of the key `name` in the directory `dir`, not yet
/// expanded.
pub open spec fn private_key_path(dir: Seq<char>, name: Seq<char>) -> Seq<char> {
    dir + seq!['/'] + name
}

/// The public key file that belongs to a private key file.
pub open spec fn public_key_path(private_key: Seq<char>) -> Seq<char> {
    private_key + PUBLIC_KEY_SUFFIX@
}

/// The expanded paths that a run works on.
#[derive(Clone, Debug, PartialEq, Eq)]
pub struct Layout {
    /// The directory that holds the keys.
    pub directory: String,
    /// The file that the key generator writes the private key to.
    pub private_key: String,
    /// The file that the key generator writes the public key to.
    pub public_key: String,
    /// The file that the public key is appended to.
    pub allow_list: String,
}

/// A [`Layout`] as plain text.
pub ghost struct LayoutView {
    pub directory: Seq<char>,
    pub private_key: Seq<char>,
    pub public_key: Seq<char>,
    pub allow_list: Seq<char>,
}

impl View for Layout {
    type V = LayoutView;

    open spec fn view(&self) -> LayoutView {
        LayoutView {
            directory: self.directory@,
            private_key: self.private_key@,
            public_key: self.public_key@,
            allow_list: self.allow_list@,
        }
    }
}

/// The layout of the key `name` under `config`, for the given home
/// directory.
pub open spec fn layout_of(config: ConfigView, name: Seq<char>, home: Option<Seq<char>>) -> LayoutView {
    let private_key = expansion(private_key_path(config.ssh_dir, name), home);
    LayoutView {
        directory: expansion(config.ssh_dir, home),
        private_key,
        public_key: public_key_path(private_key),
        allow_list: expansion(config.authorized_keys, home),
    }
}

impl Layout {
    /// Works out where the files of the key `name` live.
    pub fn locate(config: &Config, name: &str, home: Option<&str>) -> (layout: Layout)
        ensures
            layout@ == layout_of(config@, name@, home_view(home)),
    {
        let raw = config.ssh_dir.clone().concat("/").concat(name);
        proof {
            reveal_strlit("/");
            assert("/"@ =~= seq!['/']);
        }
        let private_key = expand(raw.as_str(), home);
        let public_key = private_key.clone().concat(PUBLIC_KEY_SUFFIX);
        Layout {
            directory: expand(config.ssh_dir.as_str(), home),
            private_key,
            public_key,
            allow_list: expand(config.authorized_keys.as_str(), home),
        }
    }
}

/// The public key file is where expanding its unexpanded path leads: it
/// makes no difference whether the suffix is appended before or after the
/// expansion.
pub proof fn lemma_public_key_expands(config: ConfigView, name: Seq<char>, home: Option<Seq<char>>)
    ensures
        layout_of(config, name, home).public_key == expansion(
            public_key_path(private_key_path(config.ssh_dir, name)),
            home,
        ),
{
    lemma_expansion_keeps_suffix(private_key_path(config.ssh_dir, name), PUBLIC_KEY_SUFFIX@, home);
}

/// A private key file is named after its key: expanded or not, its path
/// ends with a slash and the name of the key.
pub proof fn lemma_private_key_named_after_key(
    config: ConfigView,
    name: Seq<char>,
    home: Option<Seq<char>>,
)
    ensures
        (seq!['/'] + name).is_suffix_of(layout_of(config, name, home).private_key),
{
}

} // verus!
