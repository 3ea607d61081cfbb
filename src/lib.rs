//! A peer-to-peer marketplace ledger: participants and roles, listings,
//! purchase orders with escrowed payment, a two-party cancellation protocol
//! and a bidirectional reputation system with per-category aggregates.
pub mod cuenta;
pub mod invariante;
pub mod leyes;
pub mod marketplace;
pub mod modelo;
pub mod ranking;
pub mod reportes;
pub mod tabla;
pub mod tipos;

pub use cuenta::{AccountId, Balance};
pub use marketplace::Marketplace;
pub use tipos::{
    CalificacionOrden, CancelacionPendiente, Error, Estado, Orden, Producto, ReputacionUsuario, Rol,
};
