//! A shared-parameter store for single-core, interrupt-driven software.
//!
//! A database in this context is a structure of parameters shared in a
//! system. Writers at any priority level update typed fields of the shared
//! content and record every real change in a pending-change ledger; a single
//! coalescing dirty flag remembers that something is pending. Notification is
//! decoupled from writing: a later call to `notify_subscribers` drains the
//! ledger and dispatches to observers registered against fixed subsets of the
//! parameter space, so that slow observer code never blocks a writer.
//!
//! The write path runs inside one bounded critical section covering the
//! content and the ledger, while the subscriber registry is guarded by a
//! separate non-blocking lock: `notify_subscribers` fails fast with an
//! explicit, retryable error instead of waiting, and restores any drained
//! change that would otherwise be lost.

mod alice_and_bob_subscriber;
mod bob_and_debbie_subscriber;
mod change_list;
mod content;
mod database;
mod database_content;
mod database_error;
mod dromedar_case;
mod parameter;
pub mod sample_database;
mod subscriber_handler;
mod subset;

pub use alice_and_bob_subscriber::AliceAndBobSubscriber;
pub use alice_and_bob_subscriber::AliceAndBobSubset;
pub use alice_and_bob_subscriber::lemma_alice_and_bob_subset_correct;
pub use bob_and_debbie_subscriber::BobAndDebbieSubscriber;
pub use bob_and_debbie_subscriber::BobAndDebbieSubset;
pub use change_list::ParameterChangeList;
pub use change_list::all_slots_clear;
pub use content::DatabaseContent;
pub use database::DatabaseHandler;
pub use database::DatabaseRef;
pub use database::batch_changes;
pub use database::ledger_after;
pub use database::params_after;
pub use database::last_write;
pub use database::lemma_coalescing;
pub use database::lemma_no_loss_under_contention;
pub use database::lemma_notify_idempotent;
pub use database_content::MY_DATABASE_MEMBER_COUNT;
pub use database_content::MyDatabase;
pub use database_content::MyDatabaseContent;
pub use database_content::MyDatabaseContentSubscriberHandler;
pub use database_content::MyDatabaseMember;
pub use database_content::SUBSCRIBER_CAPACITY;
pub use database_error::DatabaseError;
pub use dromedar_case::ascii_lower;
pub use dromedar_case::ascii_upper;
pub use dromedar_case::dromedar_case_of;
pub use dromedar_case::is_ascii_digit;
pub use dromedar_case::is_ascii_lower;
pub use dromedar_case::is_unicode_uppercase;
pub use dromedar_case::lemma_snake_dromedar_round_trip;
pub use dromedar_case::snake_case_of;
pub use dromedar_case::snake_identifier;
pub use dromedar_case::to_dromedar_case;
pub use dromedar_case::to_snake_case;
pub use dromedar_case::to_upper_snake_case;
pub use dromedar_case::upper_snake_case_of;
pub use dromedar_case::uppercase_char;
pub use parameter::DatabaseParameter;
pub use subscriber_handler::DatabaseSubscriber;
pub use subscriber_handler::DatabaseSubscriberHandler;
pub use subscriber_handler::dispatch_group;
pub use subscriber_handler::group_notified;
pub use subscriber_handler::subscribe_in_group;
pub use subscriber_handler::subset_triggered;
pub use subset::Subset;
