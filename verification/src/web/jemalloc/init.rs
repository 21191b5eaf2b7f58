//! The configuration text that jemalloc reads when a process starts.

use crate::chars::{decimal, decimal_digits, extend, extend_str, to_string};
use vstd::prelude::*;

verus! {

/// Jemalloc configuration.
#[derive(Clone, Debug)]
pub struct Jemalloc {
    pub background_thread: bool,
    pub max_background_threads: Option<u32>,
    pub number_of_arenas: Option<u32>,
    pub extra_conf: Option<String>,
}

/// The names of the environment variables that jemalloc reads its
/// configuration from.
pub open spec fn malloc_conf_variables() -> Seq<Seq<char>> {
    seq!["MALLOC_CONF"@, "_RJEM_MALLOC_CONF"@]
}

/// The names of the environment variables that jemalloc reads its
/// configuration from.
pub fn possible_malloc_conf_environment_variables() -> (out: Vec<&'static str>)
    ensures
        out@.map_values(|name: &'static str| name@) == malloc_conf_variables(),
{
    let mut out: Vec<&'static str> = Vec::new();
    out.push("MALLOC_CONF");
    out.push("_RJEM_MALLOC_CONF");
    assert(out@.map_values(|name: &'static str| name@) == malloc_conf_variables());
    out
}

/// Whether jemalloc can manage background threads on a target: it cannot
/// where the C library is musl, nor on macOS.
pub fn is_background_thread_supported(target_env_is_musl: bool, target_os_is_macos: bool) -> (out:
    bool)
    ensures
        out == (!target_env_is_musl && !target_os_is_macos),
{
    if target_env_is_musl {
        return false;
    }
    if target_os_is_macos {
        return false;
    }
    true
}

/// One numeric option as the configuration text holds it: a comma, the key,
/// a colon and the number; nothing where the option is not set.
pub open spec fn numeric_option(key: Seq<char>, value: Option<u32>) -> Seq<char> {
    match value {
        Some(v) => ","@ + key + ":"@ + decimal(v as nat),
        None => Seq::empty(),
    }
}

/// The free-form options as the configuration text holds them: a comma and
/// the options as given; nothing where there are none.
pub open spec fn extra_option(extra: Option<String>) -> Seq<char> {
    match extra {
        Some(text) => ","@ + text@,
        None => Seq::empty(),
    }
}

/// The configuration text of `config`. It always asks jemalloc to abort on
/// an invalid configuration. Background threads are left out on purpose:
/// they are switched on at run time.
pub open spec fn config_text(config: Jemalloc) -> Seq<char> {
    "abort_conf:true"@ + numeric_option("max_background_threads"@, config.max_background_threads)
        + numeric_option("narenas"@, config.number_of_arenas) + extra_option(config.extra_conf)
}

fn write_config(config: &mut Vec<char>, key: &str, value: u32)
    ensures
        final(config)@ == old(config)@ + numeric_option(key@, Some(value)),
{
    extend_str(config, ",");
    extend_str(config, key);
    extend_str(config, ":");
    extend(config, &decimal_digits(value as u128));
    assert(config@ == old(config)@ + (","@ + key@ + ":"@ + decimal(value as nat)));
}

impl Jemalloc {
    /// The configuration text for the `MALLOC_CONF` environment variable.
    pub fn to_config(&self) -> (out: String)
        ensures
            out@ == config_text(*self),
    {
        let mut config: Vec<char> = Vec::new();
        extend_str(&mut config, "abort_conf:true");
        if let Some(v) = self.max_background_threads {
            write_config(&mut config, "max_background_threads", v);
        }
        if let Some(v) = self.number_of_arenas {
            write_config(&mut config, "narenas", v);
        }
        let ghost before = config@;
        if let Some(extra_conf) = &self.extra_conf {
            extend_str(&mut config, ",");
            extend_str(&mut config, extra_conf.as_str());
            assert(config@ == before + (","@ + extra_conf@));
        }
        assert(config@ == config_text(*self));
        to_string(&config)
    }
}

impl Default for Jemalloc {
    fn default() -> (out: Self)
        ensures
            out == (Jemalloc {
                background_thread: false,
                max_background_threads: None,
                number_of_arenas: None,
                extra_conf: None,
            }),
    {
        Jemalloc {
            background_thread: false,
            max_background_threads: None,
            number_of_arenas: None,
            extra_conf: None,
        }
    }
}

} // verus!
