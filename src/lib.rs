pub mod account;
pub mod bitvec;
pub mod bootstrap;
pub mod consensus_types;
pub mod encoding;
pub mod epoch_change;
pub mod error;
pub mod laws;
pub mod ledger_info;
pub mod metrics_safety_rules;
pub mod mock_vm_validator;
pub mod safety_data;
pub mod safety_rules;
pub mod serializer;
pub mod t_safety_rules;
pub mod validator_set;
