//! What the command line says, as plain values, and how it overrides the
//! configuration.

use crate::config::{text_of, Config, ConfigView, LlmConfig, LlmConfigView, LoopConfig, LoopConfigView};
use vstd::prelude::*;

verus! {

/// The arguments of `run`.
#[derive(Debug)]
pub struct RunArgs {
    /// The path of the plan to follow.
    pub plan: String,
    /// The greatest number of iterations, in place of the configured one.
    pub max_iterations: Option<u32>,
    /// The model of the agent, in place of the configured one.
    pub model: Option<String>,
    /// The time allowed for an iteration, in minutes, in place of the configured one.
    pub timeout: Option<u32>,
}

pub struct RunArgsView {
    pub plan: Seq<char>,
    pub max_iterations: Option<u32>,
    pub model: Option<Seq<char>>,
    pub timeout: Option<u32>,
}

impl View for RunArgs {
    type V = RunArgsView;

    open spec fn view(&self) -> RunArgsView {
        RunArgsView {
            plan: self.plan@,
            max_iterations: self.max_iterations,
            model: text_of(self.model),
            timeout: self.timeout,
        }
    }
}

/// What to do.
#[derive(Debug)]
pub enum Commands {
    /// Set up the working directory.
    Init,
    /// Run the loop.
    Run(RunArgs),
    /// Show where the loop stands.
    Status,
}

/// The command line as a whole.
#[derive(Debug)]
pub struct Cli {
    /// The path of a configuration file, in place of the usual ones.
    pub config: Option<String>,
    pub verbose: bool,
    pub command: Commands,
}

impl RunArgsView {
    /// The configuration with each value that the command line gives in the
    /// place of the configured one.
    pub open spec fn over(self, config: ConfigView) -> ConfigView {
        ConfigView {
            loop_config: LoopConfigView {
                max_iterations: match self.max_iterations {
                    Some(n) => n,
                    None => config.loop_config.max_iterations,
                },
                iteration_timeout_minutes: match self.timeout {
                    Some(t) => t,
                    None => config.loop_config.iteration_timeout_minutes,
                },
                ..config.loop_config
            },
            llm: LlmConfigView {
                model: match self.model {
                    Some(m) => m,
                    None => config.llm.model,
                },
                ..config.llm
            },
            ..config
        }
    }
}

impl RunArgs {
    /// Applies the overrides of the command line to `config`.
    pub fn apply(&self, config: Config) -> (r: Config)
        ensures
            r@ == self@.over(config@),
    {
        let Config { loop_config, validation, quality_gates, llm, git } = config;
        let LoopConfig {
            max_iterations,
            iteration_timeout_minutes,
            sleep_between_secs,
            completion_signal,
        } = loop_config;
        let LlmConfig { model, dangerously_skip_permissions } = llm;
        Config {
            loop_config: LoopConfig {
                max_iterations: match self.max_iterations {
                    Some(n) => n,
                    None => max_iterations,
                },
                iteration_timeout_minutes: match self.timeout {
                    Some(t) => t,
                    None => iteration_timeout_minutes,
                },
                sleep_between_secs,
                completion_signal,
            },
            validation,
            quality_gates,
            llm: LlmConfig {
                model: match &self.model {
                    Some(m) => m.clone(),
                    None => model,
                },
                dangerously_skip_permissions,
            },
            git,
        }
    }
}

} // verus!
