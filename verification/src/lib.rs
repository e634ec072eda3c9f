//! A verified core for an agent harness: staffing, scheduling, messaging, leases, budgets,
//! mission plans and the decisions that drive model and tool turns.

pub mod agent_turn;
pub mod application;
pub mod approval_drive;
pub mod approval_laws;
pub mod approvals;
pub mod budget;
pub mod budget_laws;
pub mod builtin;
pub mod cancellation;
pub mod catalog;
pub mod checkpoints;
pub mod context;
pub mod context_laws;
pub mod conversation;
pub mod coordination;
pub mod digest;
pub mod drive;
pub mod effect_laws;
pub mod effects;
pub mod error;
pub mod exchange;
pub mod execution;
pub mod extensions;
pub mod finish_laws;
pub mod form_laws;
pub mod json;
pub mod lease_laws;
pub mod leases;
pub mod lsp;
pub mod memory;
pub mod message_laws;
pub mod messages;
pub mod mission;
pub mod mission_events;
pub mod model;
pub mod model_loop;
pub mod observe;
pub mod ordered;
pub mod parallel;
pub mod path_laws;
pub mod paths;
pub mod persona;
pub mod persona_laws;
pub mod plan_laws;
pub mod plans;
pub mod profile;
pub mod profile_laws;
pub mod profiles_build;
pub mod profiles_build_hold;
pub mod profiles_control;
pub mod profiles_control_hold;
pub mod profiles_design;
pub mod profiles_design_hold;
pub mod profiles_quality;
pub mod profiles_quality_hold;
pub mod prompts;
pub mod recovery;
pub mod report_laws;
pub mod result_laws;
pub mod results;
pub mod roles;
pub mod run_laws;
pub mod runs;
pub mod scheduling;
pub mod scheduling_laws;
pub mod services;
pub mod session;
pub mod setting_laws;
pub mod settings;
pub mod shown_laws;
pub mod sorting;
pub mod staffing;
pub mod staffing_laws;
pub mod state_store;
pub mod steering;
pub mod talk_laws;
pub mod team_drive;
pub mod team_finish;
pub mod team_laws;
pub mod team_view;
pub mod text;
pub mod text_laws;
pub mod tool_calls;
pub mod turn_laws;
pub mod wave_drive;
pub mod wave_laws;
pub mod waves;
