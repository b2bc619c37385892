//! Process-wide settings: the operation flags shared by every platform
//! adapter, and the merge of configuration-file values into command-line
//! options (file values fill only unset options).

use vstd::prelude::*;

use crate::Error;
use crate::strutil::matches_opt_str;
use crate::yaml;
use crate::yaml::{config_parses, yaml_parses, yaml_str_field};

verus! {

/// Whether to force creating or updating, or decide from the remote state.
#[derive(Clone, Copy, Debug, PartialEq, Eq, Structural)]
pub enum Operation {
    Auto,
    Create,
    Update,
}

impl Default for Operation {
    fn default() -> (r: Self)
        ensures
            r == Operation::Auto,
    {
        Operation::Auto
    }
}

/// How articles are compared to determine whether they already exist.
#[derive(Clone, Copy, Debug, PartialEq, Eq, Structural)]
pub enum Compare {
    CanonicalUrl,
    Slug,
}

impl Default for Compare {
    fn default() -> (r: Self)
        ensures
            r == Compare::CanonicalUrl,
    {
        Compare::CanonicalUrl
    }
}

/// The platforms a run may target.
#[derive(Clone, Copy, Debug, PartialEq, Eq, Structural)]
pub enum Platforms {
    Medium,
    Devto,
    Hashnode,
    Tumblr,
    All,
}

/// Article fields written when updating an existing article.
#[derive(Clone, Copy, Debug, PartialEq, Eq, Structural)]
pub enum UpdateField {
    Body,
    Slug,
    Tags,
}

/// Read-only for the whole run once built.
#[derive(Clone, Debug)]
pub struct Settings {
    /// Dry run: no create, update or mutate call is issued.
    pub dry: bool,
    /// Posts are created as drafts, where the platform allows it.
    pub draft: bool,
    pub operation: Operation,
    pub compare: Compare,
    /// Git remote used to derive the canonical URL.
    pub remote: String,
    /// Publish date override.
    pub date: Option<String>,
    /// Path of the YAML configuration file.
    pub config: String,
    /// Front-matter `slug` override.
    pub slug: Option<String>,
    pub update_fields: Vec<UpdateField>,
    /// The Markdown files to publish.
    pub posts: Vec<String>,
}

impl Default for Settings {
    fn default() -> (r: Self)
        ensures
            !r.dry,
            !r.draft,
            r.operation == Operation::Auto,
            r.compare == Compare::CanonicalUrl,
            r.remote@.len() == 0,
            r.date is None,
            r.config@.len() == 0,
            r.slug is None,
            r.update_fields@.len() == 0,
            r.posts@.len() == 0,
    {
        Settings {
            dry: false,
            draft: false,
            operation: Operation::Auto,
            compare: Compare::CanonicalUrl,
            remote: String::new(),
            date: None,
            config: String::new(),
            slug: None,
            update_fields: Vec::new(),
            posts: Vec::new(),
        }
    }
}

/// Command-line options: per-platform credentials, the enabled platforms,
/// and the shared settings.
#[derive(Clone, Debug)]
pub struct Opts {
    pub hashnode_api_token: Option<String>,
    pub hashnode_username: Option<String>,
    pub medium_api_token: Option<String>,
    pub medium_publication_id: Option<String>,
    pub devto_api_token: Option<String>,
    pub tumblr_consumer_key: Option<String>,
    pub tumblr_consumer_secret: Option<String>,
    pub tumblr_token: Option<String>,
    pub tumblr_token_secret: Option<String>,
    pub tumblr_blog_id: Option<String>,
    pub platforms: Vec<Platforms>,
    pub settings: Settings,
}

impl Default for Opts {
    fn default() -> (r: Self)
        ensures
            r.hashnode_api_token is None,
            r.hashnode_username is None,
            r.medium_api_token is None,
            r.medium_publication_id is None,
            r.devto_api_token is None,
            r.tumblr_consumer_key is None,
            r.tumblr_consumer_secret is None,
            r.tumblr_token is None,
            r.tumblr_token_secret is None,
            r.tumblr_blog_id is None,
            r.platforms@.len() == 0,
    {
        Opts {
            hashnode_api_token: None,
            hashnode_username: None,
            medium_api_token: None,
            medium_publication_id: None,
            devto_api_token: None,
            tumblr_consumer_key: None,
            tumblr_consumer_secret: None,
            tumblr_token: None,
            tumblr_token_secret: None,
            tumblr_blog_id: None,
            platforms: Vec::new(),
            settings: Settings::default(),
        }
    }
}

/// Fills an unset option from the configuration file; a value given on the
/// command line always wins.
fn fill(cur: &mut Option<String>, cfg: Option<String>)
    ensures
        *old(cur) is Some ==> *final(cur) == *old(cur),
        *old(cur) is None ==> *final(cur) == cfg,
{
    if cur.is_none() {
        *cur = cfg;
    }
}

/// One credential was merged: a value the command line set is kept; an
/// unset one now carries exactly what the configuration text maps the key
/// to.
pub open spec fn filled(
    old_v: Option<String>,
    new_v: Option<String>,
    config: Seq<char>,
    key: Seq<char>,
) -> bool {
    match old_v {
        Some(_) => new_v == old_v,
        None => matches_opt_str(new_v, yaml_str_field(config, key)),
    }
}

/// Looks one credential key up in a configuration already checked to be a
/// string map.
fn config_lookup(config: &str, key: &str) -> (r: Option<String>)
    requires
        yaml_parses(config@),
    ensures
        matches_opt_str(r, yaml_str_field(config@, key@)),
{
    match yaml::get_str_field(config, key) {
        Ok(v) => v,
        Err(_) => {
            proof {
                assert(false);
            }
            None
        },
    }
}

/// Merges configuration-file values into the options: the file must be a
/// string-to-string map (anything else is a `BadString` error, the
/// options untouched); each credential the command line left unset is
/// filled with the file's value for its key; the shared settings and the
/// platform list are never touched.
pub fn process_config(opts: &mut Opts, config: &str) -> (r: Result<(), Error>)
    ensures
        final(opts).settings == old(opts).settings,
        final(opts).platforms == old(opts).platforms,
        r is Err ==> *final(opts) == *old(opts) && (r matches Err(Error::BadString { .. })),
        r is Ok ==> config_parses(config@),
        !config_parses(config@) ==> r is Err,
        (config_parses(config@) && yaml_parses(config@)) ==> r is Ok,
        r is Ok ==> {
            &&& filled(
                old(opts).devto_api_token,
                final(opts).devto_api_token,
                config@,
                "DEVTO_API_TOKEN"@,
            )
            &&& filled(
                old(opts).hashnode_api_token,
                final(opts).hashnode_api_token,
                config@,
                "HASHNODE_API_TOKEN"@,
            )
            &&& filled(
                old(opts).hashnode_username,
                final(opts).hashnode_username,
                config@,
                "HASHNODE_USERNAME"@,
            )
            &&& filled(
                old(opts).medium_api_token,
                final(opts).medium_api_token,
                config@,
                "MEDIUM_API_TOKEN"@,
            )
            &&& filled(
                old(opts).medium_publication_id,
                final(opts).medium_publication_id,
                config@,
                "MEDIUM_PUBLICATION_ID"@,
            )
            &&& filled(
                old(opts).tumblr_consumer_key,
                final(opts).tumblr_consumer_key,
                config@,
                "TUMBLR_CONSUMER_KEY"@,
            )
            &&& filled(
                old(opts).tumblr_consumer_secret,
                final(opts).tumblr_consumer_secret,
                config@,
                "TUMBLR_CONSUMER_SECRET"@,
            )
            &&& filled(
                old(opts).tumblr_token,
                final(opts).tumblr_token,
                config@,
                "TUMBLR_OAUTH_TOKEN"@,
            )
            &&& filled(
                old(opts).tumblr_token_secret,
                final(opts).tumblr_token_secret,
                config@,
                "TUMBLR_OAUTH_TOKEN_SECRET"@,
            )
            &&& filled(
                old(opts).tumblr_blog_id,
                final(opts).tumblr_blog_id,
                config@,
                "TUMBLR_BLOG_ID"@,
            )
        },
{
    match yaml::config_check(config) {
        Ok(_) => {},
        Err(msg) => {
            return Err(Error::BadString { expected: msg, found: config.to_owned() });
        },
    }
    let first = match yaml::get_str_field(config, "DEVTO_API_TOKEN") {
        Ok(v) => v,
        Err(msg) => {
            return Err(Error::BadString { expected: msg, found: config.to_owned() });
        },
    };
    fill(&mut opts.devto_api_token, first);
    let v = config_lookup(config, "HASHNODE_API_TOKEN");
    fill(&mut opts.hashnode_api_token, v);
    let v = config_lookup(config, "HASHNODE_USERNAME");
    fill(&mut opts.hashnode_username, v);
    let v = config_lookup(config, "MEDIUM_API_TOKEN");
    fill(&mut opts.medium_api_token, v);
    let v = config_lookup(config, "MEDIUM_PUBLICATION_ID");
    fill(&mut opts.medium_publication_id, v);
    let v = config_lookup(config, "TUMBLR_CONSUMER_KEY");
    fill(&mut opts.tumblr_consumer_key, v);
    let v = config_lookup(config, "TUMBLR_CONSUMER_SECRET");
    fill(&mut opts.tumblr_consumer_secret, v);
    let v = config_lookup(config, "TUMBLR_OAUTH_TOKEN");
    fill(&mut opts.tumblr_token, v);
    let v = config_lookup(config, "TUMBLR_OAUTH_TOKEN_SECRET");
    fill(&mut opts.tumblr_token_secret, v);
    let v = config_lookup(config, "TUMBLR_BLOG_ID");
    fill(&mut opts.tumblr_blog_id, v);
    Ok(())
}

/// The platform set a run actually targets: an empty request, or one that
/// names every platform, enables the default trio.
pub fn effective_platforms(requested: &Vec<Platforms>) -> (r: Vec<Platforms>)
    ensures
        (requested@.len() == 0 || requested@.contains(Platforms::All)) ==> r@ == seq![
            Platforms::Devto,
            Platforms::Hashnode,
            Platforms::Medium,
        ],
        !(requested@.len() == 0 || requested@.contains(Platforms::All)) ==> r@ == requested@,
{
    let mut has_all = false;
    let mut i: usize = 0;
    while i < requested.len()
        invariant
            i <= requested@.len(),
            has_all == exists|j: int| 0 <= j < i && requested@[j] == Platforms::All,
        decreases requested@.len() - i,
    {
        if requested[i] == Platforms::All {
            has_all = true;
        }
        i += 1;
    }
    if requested.len() == 0 || has_all {
        let mut r: Vec<Platforms> = Vec::new();
        r.push(Platforms::Devto);
        r.push(Platforms::Hashnode);
        r.push(Platforms::Medium);
        assert(r@ =~= seq![Platforms::Devto, Platforms::Hashnode, Platforms::Medium]);
        r
    } else {
        let mut r: Vec<Platforms> = Vec::new();
        let mut i: usize = 0;
        while i < requested.len()
            invariant
                i <= requested@.len(),
                r@ == requested@.take(i as int),
            decreases requested@.len() - i,
        {
            r.push(requested[i]);
            assert(r@ =~= requested@.take(i + 1));
            i += 1;
        }
        assert(r@ =~= requested@);
        r
    }
}

} // verus!
