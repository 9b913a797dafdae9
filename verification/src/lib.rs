pub mod auth;
pub mod calendar;
pub mod chat_type;
pub mod config;
pub mod crypto;
pub mod discord;
pub mod encoding;
pub mod error;
pub mod i18n;
pub mod init;
pub mod jwt;
pub mod integrations;
pub mod models;
pub mod notifications;
pub mod numbers;
pub mod outside;
pub mod repositories;
pub mod routes;
pub mod settings;
pub mod subscriptions;
pub mod telegram;
pub mod text;
pub mod twitch;
pub mod webhooks;
