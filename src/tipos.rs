//! The records kept by the marketplace and the errors its operations report.
use vstd::prelude::*;

use crate::cuenta::{AccountId, Balance};

verus! {

/// Longest listing name accepted, in characters.
pub const MAX_NOMBRE_LEN: usize = 64;

/// Longest listing description accepted, in characters.
pub const MAX_DESCRIPCION_LEN: usize = 256;

/// Longest listing category accepted, in characters.
pub const MAX_CATEGORIA_LEN: usize = 32;

/// The role of a registered participant.
#[derive(Clone, Copy, Debug, PartialEq, Eq, Structural)]
pub enum Rol {
    /// May only buy.
    Comprador,
    /// May only sell.
    Vendedor,
    /// May buy and sell.
    Ambos,
}

/// Whether a role allows buying.
pub open spec fn puede_comprar(r: Rol) -> bool {
    r is Comprador || r is Ambos
}

/// Whether a role allows selling.
pub open spec fn puede_vender(r: Rol) -> bool {
    r is Vendedor || r is Ambos
}

impl Rol {
    /// Whether this role allows buying.
    pub fn es_comprador(&self) -> (r: bool)
        ensures
            r == puede_comprar(*self),
    {
        match self {
            Rol::Comprador | Rol::Ambos => true,
            Rol::Vendedor => false,
        }
    }

    /// Whether this role allows selling.
    pub fn es_vendedor(&self) -> (r: bool)
        ensures
            r == puede_vender(*self),
    {
        match self {
            Rol::Vendedor | Rol::Ambos => true,
            Rol::Comprador => false,
        }
    }
}

/// The state of a purchase order.
#[derive(Clone, Copy, Debug, PartialEq, Eq, Structural)]
pub enum Estado {
    /// Created and paid into escrow, not shipped yet.
    Pendiente,
    /// Shipped by the seller.
    Enviado,
    /// Receipt confirmed by the buyer (terminal).
    Recibido,
    /// Cancelled (terminal).
    Cancelada,
}

/// `Recibido` and `Cancelada` admit no further transition.
pub open spec fn es_terminal(e: Estado) -> bool {
    e is Recibido || e is Cancelada
}

/// The transitions of the order state machine, staying put among them.
pub open spec fn transicion_permitida(desde: Estado, hacia: Estado) -> bool {
    ||| desde == hacia
    ||| desde is Pendiente && hacia is Enviado
    ||| desde is Enviado && hacia is Recibido
    ||| !es_terminal(desde) && hacia is Cancelada
}

/// A published listing.
#[derive(Clone, Debug, PartialEq, Eq)]
pub struct Producto {
    /// The participant who published it.
    pub vendedor: AccountId,
    /// Its name.
    pub nombre: String,
    /// Its description.
    pub descripcion: String,
    /// Price of one unit.
    pub precio: Balance,
    /// Units still available.
    pub stock: u32,
    /// Its category.
    pub categoria: String,
}

/// A purchase order.
#[derive(Clone, Copy, Debug, PartialEq, Eq)]
pub struct Orden {
    /// The participant who bought.
    pub comprador: AccountId,
    /// The seller of the listing, copied at purchase time.
    pub vendedor: AccountId,
    /// The listing bought.
    pub id_prod: u32,
    /// Units bought.
    pub cantidad: u32,
    /// Amount paid: unit price times quantity, fixed at creation.
    pub monto_total: Balance,
    /// Current state.
    pub estado: Estado,
}

/// A pending request to cancel an order.
#[derive(Clone, Copy, Debug, PartialEq, Eq)]
pub struct CancelacionPendiente {
    /// The order concerned.
    pub oid: u32,
    /// The participant who asked for the cancellation.
    pub solicitante: AccountId,
}

/// Ratings a participant has received: (sum of scores, number of scores)
/// as a buyer and as a seller. The average is the sum divided by the count.
#[derive(Clone, Copy, Debug, PartialEq, Eq)]
pub struct ReputacionUsuario {
    /// Ratings received as a buyer.
    pub como_comprador: (u32, u32),
    /// Ratings received as a seller.
    pub como_vendedor: (u32, u32),
}

/// Which sides of an order have already rated the other.
#[derive(Clone, Copy, Debug, PartialEq, Eq, Structural)]
pub struct CalificacionOrden {
    /// The buyer has rated the seller.
    pub comprador_califico: bool,
    /// The seller has rated the buyer.
    pub vendedor_califico: bool,
}

/// Why an operation was refused.
#[derive(Clone, Copy, Debug, PartialEq, Eq, Structural)]
pub enum Error {
    /// The caller is already registered.
    YaRegistrado,
    /// The participant is not registered.
    SinRegistro,
    /// The caller's role or relation to the order does not allow the operation.
    SinPermiso,
    /// A parameter is out of its allowed range.
    ParamInvalido,
    /// No listing has this id.
    ProdInexistente,
    /// The listing has fewer units than asked for.
    StockInsuf,
    /// No order has this id.
    OrdenInexistente,
    /// The order is not in a state that allows the operation.
    EstadoInvalido,
    /// The id counter has reached its bound.
    IdOverflow,
    /// A cancellation request is already pending for the order.
    CancelacionYaPendiente,
    /// No cancellation request is pending for the order.
    CancelacionInexistente,
    /// A seller tried to buy their own listing.
    AutoCompraProhibida,
    /// The order is cancelled.
    OrdenCancelada,
    /// The requester of a cancellation cannot resolve it.
    SolicitanteCancelacion,
    /// Restoring stock would exceed the bound of the stock counter.
    StockOverflow,
    /// This side has already rated the order.
    YaCalificado,
    /// The score is not between 1 and 5.
    CalificacionInvalida,
    /// The order has not been received.
    OrdenNoRecibida,
    /// The amount tendered is less than the order total.
    PagoInsuficiente,
    /// The amount tendered is more than the order total.
    PagoExcesivo,
    /// A rating accumulator would exceed its bound.
    OverflowAritmetico,
}

} // verus!
