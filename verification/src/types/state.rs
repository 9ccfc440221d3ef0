//! The proxy's configuration and state.

use crate::milli::Milli;
use crate::power::{capped_power, lemma_scaled_grows, lemma_scaled_whole, scaled, smaller};
use vstd::arithmetic::power::pow;
use vstd::prelude::*;

verus! {

/// How a failed call is retried: how often, and how long to wait before
/// each new attempt.
#[derive(Debug, Clone, Copy, PartialEq, Eq, Structural)]
pub struct RetryConfig {
    /// How many times a failed call is tried again.
    pub max_retries: u32,
    /// The wait before the first retry, in milliseconds.
    pub base_delay_ms: u32,
    /// The longest wait, in milliseconds.
    pub max_delay_ms: u32,
    /// By how much the wait grows from one retry to the next.
    pub backoff_multiplier: Milli,
}

/// The retry policy that is used where none is given: three retries, one
/// second at first, doubling, thirty seconds at most.
pub open spec fn default_retry() -> RetryConfig {
    RetryConfig {
        max_retries: 3,
        base_delay_ms: 1000,
        max_delay_ms: 30000,
        backoff_multiplier: Milli { thousandths: 2000 },
    }
}

impl Default for RetryConfig {
    fn default() -> (config: RetryConfig)
        ensures
            config == default_retry(),
    {
        RetryConfig {
            max_retries: 3,
            base_delay_ms: 1000,
            max_delay_ms: 30000,
            backoff_multiplier: Milli { thousandths: 2000 },
        }
    }
}

impl RetryConfig {
    /// The wait after `attempt` failed attempts, before it is capped: the
    /// base delay times the `attempt`-th power of the multiplier, rounded
    /// down to a whole millisecond.
    pub open spec fn scaled(self, attempt: nat) -> nat {
        scaled(self.base_delay_ms as nat, self.backoff_multiplier, attempt)
    }

    /// The wait after `attempt` failed attempts: the scaled delay, capped at
    /// the longest wait.
    pub open spec fn delay_spec(self, attempt: nat) -> nat {
        smaller(self.scaled(attempt), self.max_delay_ms as nat)
    }

    /// The wait is never longer than the longest wait.
    pub proof fn lemma_delay_bounded(self, attempt: nat)
        ensures
            self.delay_spec(attempt) <= self.max_delay_ms,
    {
    }

    /// With a multiplier of at least one, a later wait is never shorter than
    /// an earlier one.
    pub proof fn lemma_delay_monotone(self, i: nat, j: nat)
        requires
            self.backoff_multiplier.at_least_one(),
            i <= j,
        ensures
            self.delay_spec(i) <= self.delay_spec(j),
    {
        lemma_scaled_grows(self.base_delay_ms as nat, self.backoff_multiplier, i, j);
    }

    /// With a whole multiplier `w`, the wait is the smaller of
    /// `base_delay_ms * w^attempt` and the longest wait.
    pub proof fn lemma_whole_multiplier(self, w: nat, attempt: nat)
        requires
            self.backoff_multiplier.thousandths == 1000 * w,
        ensures
            self.scaled(attempt) == self.base_delay_ms * pow(w as int, attempt),
            self.delay_spec(attempt) == if self.base_delay_ms * pow(w as int, attempt)
                > self.max_delay_ms {
                self.max_delay_ms as int
            } else {
                self.base_delay_ms * pow(w as int, attempt)
            },
    {
        lemma_scaled_whole(self.base_delay_ms as nat, self.backoff_multiplier, w, attempt);
    }

    /// Before any attempt has failed, the wait is the base delay, capped.
    pub proof fn lemma_first_delay(self)
        ensures
            self.delay_spec(0) == smaller(self.base_delay_ms as nat, self.max_delay_ms as nat),
    {
        reveal(pow);
    }

    /// Computes the wait after `attempt` failed attempts.
    pub fn delay(&self, attempt: u32) -> (wait: u32)
        ensures
            wait == self.delay_spec(attempt as nat),
            wait <= self.max_delay_ms,
    {
        capped_power(self.base_delay_ms, self.backoff_multiplier, attempt, self.max_delay_ms)
    }
}

/// The optional part of the configuration: what a caller may set when the
/// proxy starts. Whatever is left out keeps its default.
#[derive(Debug, Clone, PartialEq, Eq)]
pub struct InitConfig {
    pub default_model: Option<String>,
    pub max_cache_size: Option<usize>,
    pub timeout_ms: Option<u32>,
    pub retry_config: Option<RetryConfig>,
}

pub struct InitConfigView {
    pub default_model: Option<Seq<char>>,
    pub max_cache_size: Option<usize>,
    pub timeout_ms: Option<u32>,
    pub retry_config: Option<RetryConfig>,
}

impl View for InitConfig {
    type V = InitConfigView;

    open spec fn view(&self) -> InitConfigView {
        InitConfigView {
            default_model: self.default_model.deep_view(),
            max_cache_size: self.max_cache_size,
            timeout_ms: self.timeout_ms,
            retry_config: self.retry_config,
        }
    }
}

impl DeepView for InitConfig {
    type V = InitConfigView;

    open spec fn deep_view(&self) -> InitConfigView {
        self.view()
    }
}

/// The configuration of the proxy.
#[derive(Debug, Clone, PartialEq, Eq)]
pub struct Config {
    /// The model that is used where a caller names none.
    pub default_model: String,
    /// How many items an optional cache may keep.
    pub max_cache_size: Option<usize>,
    /// The time allowed for one request, in milliseconds.
    pub timeout_ms: u32,
    /// How failed calls are retried.
    pub retry_config: RetryConfig,
}

pub struct ConfigView {
    pub default_model: Seq<char>,
    pub max_cache_size: Option<usize>,
    pub timeout_ms: u32,
    pub retry_config: RetryConfig,
}

impl View for Config {
    type V = ConfigView;

    open spec fn view(&self) -> ConfigView {
        ConfigView {
            default_model: self.default_model@,
            max_cache_size: self.max_cache_size,
            timeout_ms: self.timeout_ms,
            retry_config: self.retry_config,
        }
    }
}

/// The configuration that is used where none is given.
pub open spec fn default_config() -> ConfigView {
    ConfigView {
        default_model: "gemini-2.0-flash"@,
        max_cache_size: Some(100usize),
        timeout_ms: 30000,
        retry_config: default_retry(),
    }
}

/// The configuration that comes of merging what a caller set over the
/// defaults: each field is the caller's where it is set, the default's
/// where it is not.
pub open spec fn merged_config(init: Option<InitConfigView>) -> ConfigView {
    match init {
        None => default_config(),
        Some(init) => ConfigView {
            default_model: match init.default_model {
                Some(model) => model,
                None => default_config().default_model,
            },
            max_cache_size: match init.max_cache_size {
                Some(size) => Some(size),
                None => default_config().max_cache_size,
            },
            timeout_ms: match init.timeout_ms {
                Some(timeout) => timeout,
                None => default_config().timeout_ms,
            },
            retry_config: match init.retry_config {
                Some(retry) => retry,
                None => default_config().retry_config,
            },
        },
    }
}

impl Default for Config {
    fn default() -> (config: Config)
        ensures
            config@ == default_config(),
    {
        Config {
            default_model: "gemini-2.0-flash".to_string(),
            max_cache_size: Some(100),
            timeout_ms: 30000,
            retry_config: RetryConfig::default(),
        }
    }
}

/// What the proxy keeps between two requests.
#[derive(Debug, Clone, PartialEq, Eq)]
pub struct State {
    /// The id of this proxy.
    pub id: String,
    /// The key that the vendor's API asks for.
    pub api_key: String,
    /// The configuration.
    pub config: Config,
    /// The id of a store, where one is used.
    pub store_id: Option<String>,
}

pub struct StateView {
    pub id: Seq<char>,
    pub api_key: Seq<char>,
    pub config: ConfigView,
    pub store_id: Option<Seq<char>>,
}

impl View for State {
    type V = StateView;

    open spec fn view(&self) -> StateView {
        StateView {
            id: self.id@,
            api_key: self.api_key@,
            config: self.config@,
            store_id: self.store_id.deep_view(),
        }
    }
}

impl State {
    /// Makes the state of a new proxy, with what the caller set merged
    /// over the default configuration.
    pub fn new(
        id: String,
        api_key: String,
        store_id: Option<String>,
        init_config: Option<InitConfig>,
    ) -> (state: State)
        ensures
            state@ == (StateView {
                id: id@,
                api_key: api_key@,
                config: merged_config(init_config.deep_view()),
                store_id: store_id.deep_view(),
            }),
    {
        let default_config: Config = Config::default();
        let config: Config = match init_config {
            Some(init) => Config {
                default_model: match init.default_model {
                    Some(model) => model,
                    None => default_config.default_model,
                },
                max_cache_size: match init.max_cache_size {
                    Some(size) => Some(size),
                    None => default_config.max_cache_size,
                },
                timeout_ms: match init.timeout_ms {
                    Some(timeout) => timeout,
                    None => default_config.timeout_ms,
                },
                retry_config: match init.retry_config {
                    Some(retry) => retry,
                    None => default_config.retry_config,
                },
            },
            None => default_config,
        };
        State { id, api_key, config, store_id }
    }
}

} // verus!
