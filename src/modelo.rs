//! The abstract state of the marketplace, its invariant, and what each
//! operation does to it: the error it reports, or the state it leads to.
use vstd::prelude::*;

use crate::cuenta::{AccountId, Balance};
use crate::tabla::{con_valor, con_valor_nombre, claves_unicas, nombres_unicos, valor_de, valor_nombre};
use crate::tipos::{
    puede_comprar, puede_vender, CalificacionOrden, CancelacionPendiente, Error, Estado, Orden,
    Producto, ReputacionUsuario, Rol, MAX_CATEGORIA_LEN, MAX_DESCRIPCION_LEN, MAX_NOMBRE_LEN,
};

verus! {

/// The state of the marketplace. Listing `id` and order `id` sit at
/// position `id - 1` of their sequences; the per-order tables (escrow,
/// cancellation requests, rating flags) run parallel to the orders.
pub struct Modelo {
    /// Registered participants and their roles, in order of registration.
    pub roles: Seq<(AccountId, Rol)>,
    pub productos: Seq<Producto>,
    pub ordenes: Seq<Orden>,
    /// The amount held for each order, if any.
    pub escrow: Seq<Option<Balance>>,
    /// The pending cancellation request of each order, if any.
    pub cancelaciones: Seq<Option<CancelacionPendiente>>,
    pub calificaciones: Seq<CalificacionOrden>,
    pub reputaciones: Seq<(AccountId, ReputacionUsuario)>,
    /// Seller ratings per category: (sum, count).
    pub categorias: Seq<(String, (u32, u32))>,
    /// The stock each listing was published with.
    pub stock_inicial: Seq<nat>,
    /// All payments ever taken into escrow.
    pub depositado: int,
    /// All escrowed funds released to sellers.
    pub liberado: int,
    /// All escrowed funds refunded to buyers.
    pub reembolsado: int,
}

/// An order that still holds escrow: `Pendiente` or `Enviado`.
pub open spec fn activa(e: Estado) -> bool {
    e is Pendiente || e is Enviado
}

/// Sum of `f` over `s`.
pub open spec fn suma<T>(s: Seq<T>, f: spec_fn(T) -> int) -> int
    decreases s.len(),
{
    if s.len() == 0 {
        0
    } else {
        suma(s.drop_last(), f) + f(s.last())
    }
}

pub proof fn lema_suma_push<T>(s: Seq<T>, x: T, f: spec_fn(T) -> int)
    ensures
        suma(s.push(x), f) == suma(s, f) + f(x),
{
    assert(s.push(x).drop_last() =~= s);
}

pub proof fn lema_suma_update<T>(s: Seq<T>, i: int, x: T, f: spec_fn(T) -> int)
    requires
        0 <= i < s.len(),
    ensures
        suma(s.update(i, x), f) == suma(s, f) - f(s[i]) + f(x),
    decreases s.len(),
{
    let t = s.update(i, x);
    if i == s.len() - 1 {
        assert(t.drop_last() =~= s.drop_last());
    } else {
        assert(t.drop_last() =~= s.drop_last().update(i, x));
        lema_suma_update(s.drop_last(), i, x, f);
    }
}

/// A sum of non-negative terms is non-negative.
pub proof fn lema_suma_no_negativa<T>(s: Seq<T>, f: spec_fn(T) -> int)
    requires
        forall|x: T| #[trigger] f(x) >= 0,
    ensures
        suma(s, f) >= 0,
    decreases s.len(),
{
    if s.len() > 0 {
        lema_suma_no_negativa(s.drop_last(), f);
    }
}

/// Units of listing `pid` held by the order: its quantity unless it was cancelled.
pub open spec fn aporte(o: Orden, pid: int) -> int {
    if o.id_prod == pid && !(o.estado is Cancelada) {
        o.cantidad as int
    } else {
        0
    }
}

pub open spec fn aporte_a(pid: int) -> spec_fn(Orden) -> int {
    |o: Orden| aporte(o, pid)
}

/// Units of listing `pid` held by the orders of `s` that were not cancelled.
pub open spec fn reservado(s: Seq<Orden>, pid: int) -> int {
    suma(s, aporte_a(pid))
}

/// The amount held by one escrow entry.
pub open spec fn monto(e: Option<Balance>) -> int {
    match e {
        Some(x) => x as int,
        None => 0,
    }
}

pub open spec fn montos() -> spec_fn(Option<Balance>) -> int {
    |e: Option<Balance>| monto(e)
}

/// All funds currently held in escrow.
pub open spec fn en_escrow(s: Seq<Option<Balance>>) -> int {
    suma(s, montos())
}

/// A participant's record before any rating.
pub open spec fn reputacion_vacia() -> ReputacionUsuario {
    ReputacionUsuario { como_comprador: (0, 0), como_vendedor: (0, 0) }
}

/// An accumulator after adding one score, if neither component overflows.
pub open spec fn cabe(acc: (u32, u32), puntos: u8) -> bool {
    acc.0 + puntos <= u32::MAX && acc.1 + 1 <= u32::MAX
}

pub open spec fn sumar(acc: (u32, u32), puntos: u8) -> (u32, u32) {
    ((acc.0 + puntos) as u32, (acc.1 + 1) as u32)
}

/// Listing fields within their bounds.
pub open spec fn parametros_validos(
    nombre: Seq<char>,
    descripcion: Seq<char>,
    precio: Balance,
    stock: u32,
    categoria: Seq<char>,
) -> bool {
    &&& precio > 0
    &&& stock > 0
    &&& 1 <= nombre.len() <= MAX_NOMBRE_LEN
    &&& 1 <= descripcion.len() <= MAX_DESCRIPCION_LEN
    &&& 1 <= categoria.len() <= MAX_CATEGORIA_LEN
}

impl Modelo {
    pub open spec fn rol(self, a: AccountId) -> Option<Rol> {
        valor_de(self.roles, a)
    }

    pub open spec fn hay_producto(self, pid: u32) -> bool {
        1 <= pid <= self.productos.len()
    }

    pub open spec fn producto(self, pid: u32) -> Producto {
        self.productos[pid - 1]
    }

    pub open spec fn hay_orden(self, oid: u32) -> bool {
        1 <= oid <= self.ordenes.len()
    }

    pub open spec fn orden(self, oid: u32) -> Orden {
        self.ordenes[oid - 1]
    }

    /// The amount held for order `oid`, if any.
    pub open spec fn escrow_de(self, oid: u32) -> Option<Balance> {
        if self.hay_orden(oid) {
            self.escrow[oid - 1]
        } else {
            None
        }
    }

    /// The pending cancellation request of order `oid`, if any.
    pub open spec fn cancelacion(self, oid: u32) -> Option<CancelacionPendiente> {
        if self.hay_orden(oid) {
            self.cancelaciones[oid - 1]
        } else {
            None
        }
    }

    pub open spec fn reputacion(self, a: AccountId) -> Option<ReputacionUsuario> {
        valor_de(self.reputaciones, a)
    }

    /// The reputation record of `a`, empty when `a` was never rated.
    pub open spec fn reputacion_actual(self, a: AccountId) -> ReputacionUsuario {
        match self.reputacion(a) {
            Some(r) => r,
            None => reputacion_vacia(),
        }
    }

    pub open spec fn categoria(self, c: Seq<char>) -> Option<(u32, u32)> {
        valor_nombre(self.categorias, c)
    }

    pub open spec fn categoria_actual(self, c: Seq<char>) -> (u32, u32) {
        match self.categoria(c) {
            Some(x) => x,
            None => (0, 0),
        }
    }

    /// The invariant that every reachable state keeps.
    pub open spec fn wf(self) -> bool {
        &&& claves_unicas(self.roles)
        &&& claves_unicas(self.reputaciones)
        &&& nombres_unicos(self.categorias)
        &&& self.productos.len() < u32::MAX
        &&& self.ordenes.len() < u32::MAX
        &&& self.stock_inicial.len() == self.productos.len()
        &&& self.escrow.len() == self.ordenes.len()
        &&& self.cancelaciones.len() == self.ordenes.len()
        &&& self.calificaciones.len() == self.ordenes.len()
        &&& forall|i: int|
            0 <= i < self.ordenes.len() ==> 1 <= #[trigger] self.ordenes[i].id_prod
                <= self.productos.len()
        &&& forall|i: int|
            0 <= i < self.ordenes.len() ==> #[trigger] self.escrow[i] == if activa(
                self.ordenes[i].estado,
            ) {
                Some(self.ordenes[i].monto_total)
            } else {
                None
            }
        &&& forall|i: int|
            0 <= i < self.ordenes.len() && (#[trigger] self.cancelaciones[i]) is Some ==> {
                &&& activa(self.ordenes[i].estado)
                &&& self.cancelaciones[i]->0.oid == i + 1
            }
        &&& forall|p: int|
            0 <= p < self.productos.len() ==> #[trigger] self.stock_inicial[p] <= u32::MAX
                && self.productos[p].stock + reservado(self.ordenes, p + 1) == self.stock_inicial[p]
        &&& self.depositado == self.liberado + self.reembolsado + en_escrow(self.escrow)
    }

    // ---- registration ----

    pub open spec fn fallo_registrar(self, caller: AccountId) -> Option<Error> {
        if self.rol(caller) is Some {
            Some(Error::YaRegistrado)
        } else {
            None
        }
    }

    pub open spec fn tras_registrar(self, caller: AccountId, rol: Rol) -> Modelo {
        Modelo { roles: self.roles.push((caller, rol)), ..self }
    }

    pub open spec fn fallo_modificar_rol(self, caller: AccountId) -> Option<Error> {
        if self.rol(caller) is None {
            Some(Error::SinRegistro)
        } else {
            None
        }
    }

    pub open spec fn tras_modificar_rol(self, caller: AccountId, rol: Rol) -> Modelo {
        Modelo { roles: con_valor(self.roles, caller, rol), ..self }
    }

    // ---- catalog ----

    pub open spec fn fallo_publicar(
        self,
        vendedor: AccountId,
        nombre: Seq<char>,
        descripcion: Seq<char>,
        precio: Balance,
        stock: u32,
        categoria: Seq<char>,
    ) -> Option<Error> {
        if self.rol(vendedor) is None {
            Some(Error::SinRegistro)
        } else if !puede_vender(self.rol(vendedor)->0) {
            Some(Error::SinPermiso)
        } else if !parametros_validos(nombre, descripcion, precio, stock, categoria) {
            Some(Error::ParamInvalido)
        } else if self.productos.len() + 1 >= u32::MAX {
            Some(Error::IdOverflow)
        } else {
            None
        }
    }

    /// The id the next listing gets.
    pub open spec fn proximo_producto(self) -> u32 {
        (self.productos.len() + 1) as u32
    }

    pub open spec fn tras_publicar(self, p: Producto) -> Modelo {
        Modelo {
            productos: self.productos.push(p),
            stock_inicial: self.stock_inicial.push(p.stock as nat),
            ..self
        }
    }

    // ---- purchase ----

    pub open spec fn fallo_comprar(
        self,
        comprador: AccountId,
        id_prod: u32,
        cant: u32,
        pago: Balance,
    ) -> Option<Error> {
        if self.rol(comprador) is None {
            Some(Error::SinRegistro)
        } else if !puede_comprar(self.rol(comprador)->0) {
            Some(Error::SinPermiso)
        } else if cant == 0 {
            Some(Error::ParamInvalido)
        } else if !self.hay_producto(id_prod) {
            Some(Error::ProdInexistente)
        } else if self.producto(id_prod).vendedor == comprador {
            Some(Error::AutoCompraProhibida)
        } else if self.producto(id_prod).stock < cant {
            Some(Error::StockInsuf)
        } else if pago < self.producto(id_prod).precio * cant {
            Some(Error::PagoInsuficiente)
        } else if pago > self.producto(id_prod).precio * cant {
            Some(Error::PagoExcesivo)
        } else if self.ordenes.len() + 1 >= u32::MAX {
            Some(Error::IdOverflow)
        } else {
            None
        }
    }

    /// The id the next order gets.
    pub open spec fn proxima_orden(self) -> u32 {
        (self.ordenes.len() + 1) as u32
    }

    pub open spec fn tras_comprar(
        self,
        comprador: AccountId,
        id_prod: u32,
        cant: u32,
        pago: Balance,
    ) -> Modelo {
        let p = self.producto(id_prod);
        Modelo {
            productos: self.productos.update(
                id_prod - 1,
                Producto { stock: (p.stock - cant) as u32, ..p },
            ),
            ordenes: self.ordenes.push(
                Orden {
                    comprador,
                    vendedor: p.vendedor,
                    id_prod,
                    cantidad: cant,
                    monto_total: pago,
                    estado: Estado::Pendiente,
                },
            ),
            escrow: self.escrow.push(Some(pago)),
            cancelaciones: self.cancelaciones.push(None),
            calificaciones: self.calificaciones.push(
                CalificacionOrden { comprador_califico: false, vendedor_califico: false },
            ),
            depositado: self.depositado + pago,
            ..self
        }
    }

    // ---- shipment and receipt ----

    pub open spec fn fallo_marcar_enviado(self, caller: AccountId, oid: u32) -> Option<Error> {
        if !self.hay_orden(oid) {
            Some(Error::OrdenInexistente)
        } else if self.orden(oid).vendedor != caller {
            Some(Error::SinPermiso)
        } else if self.orden(oid).estado is Cancelada {
            Some(Error::OrdenCancelada)
        } else if !(self.orden(oid).estado is Pendiente) {
            Some(Error::EstadoInvalido)
        } else {
            None
        }
    }

    pub open spec fn con_estado(self, oid: u32, e: Estado) -> Seq<Orden> {
        self.ordenes.update(oid - 1, Orden { estado: e, ..self.orden(oid) })
    }

    pub open spec fn tras_marcar_enviado(self, oid: u32) -> Modelo {
        Modelo { ordenes: self.con_estado(oid, Estado::Enviado), ..self }
    }

    pub open spec fn fallo_marcar_recibido(self, caller: AccountId, oid: u32) -> Option<Error> {
        if !self.hay_orden(oid) {
            Some(Error::OrdenInexistente)
        } else if self.orden(oid).comprador != caller {
            Some(Error::SinPermiso)
        } else if self.orden(oid).estado is Cancelada {
            Some(Error::OrdenCancelada)
        } else if !(self.orden(oid).estado is Enviado) {
            Some(Error::EstadoInvalido)
        } else {
            None
        }
    }

    /// Receipt: the order is `Recibido`, its escrow goes to the seller and any
    /// pending request is dropped.
    pub open spec fn tras_marcar_recibido(self, oid: u32) -> Modelo {
        Modelo {
            ordenes: self.con_estado(oid, Estado::Recibido),
            escrow: self.escrow.update(oid - 1, None),
            cancelaciones: self.cancelaciones.update(oid - 1, None),
            liberado: self.liberado + self.orden(oid).monto_total,
            ..self
        }
    }

    // ---- cancellation ----

    /// Whether restoring the stock of order `oid` fits the stock counter.
    pub open spec fn stock_restaurable(self, oid: u32) -> bool {
        self.producto(self.orden(oid).id_prod).stock + self.orden(oid).cantidad <= u32::MAX
    }

    /// Cancellation: the reserved units go back to the listing, the escrow is
    /// refunded to the buyer, the order is `Cancelada` and no request remains.
    pub open spec fn tras_cancelar(self, oid: u32) -> Modelo {
        let o = self.orden(oid);
        let p = self.producto(o.id_prod);
        Modelo {
            productos: self.productos.update(
                o.id_prod - 1,
                Producto { stock: (p.stock + o.cantidad) as u32, ..p },
            ),
            ordenes: self.con_estado(oid, Estado::Cancelada),
            escrow: self.escrow.update(oid - 1, None),
            cancelaciones: self.cancelaciones.update(oid - 1, None),
            reembolsado: self.reembolsado + o.monto_total,
            ..self
        }
    }

    /// The buyer's unilateral cancellation of a pending order.
    pub open spec fn cancela_directo(self, caller: AccountId, oid: u32) -> bool {
        self.orden(oid).estado is Pendiente && caller == self.orden(oid).comprador
    }

    pub open spec fn fallo_solicitar_cancelacion(self, caller: AccountId, oid: u32) -> Option<
        Error,
    > {
        if !self.hay_orden(oid) {
            Some(Error::OrdenInexistente)
        } else if self.orden(oid).estado is Cancelada {
            Some(Error::OrdenCancelada)
        } else if caller != self.orden(oid).comprador && caller != self.orden(oid).vendedor {
            Some(Error::SinPermiso)
        } else if !activa(self.orden(oid).estado) {
            Some(Error::EstadoInvalido)
        } else if self.cancela_directo(caller, oid) {
            if !self.stock_restaurable(oid) {
                Some(Error::StockOverflow)
            } else {
                None
            }
        } else if self.cancelacion(oid) is Some {
            Some(Error::CancelacionYaPendiente)
        } else {
            None
        }
    }

    pub open spec fn tras_solicitar_cancelacion(self, caller: AccountId, oid: u32) -> Modelo {
        if self.cancela_directo(caller, oid) {
            self.tras_cancelar(oid)
        } else {
            Modelo {
                cancelaciones: self.cancelaciones.update(
                    oid - 1,
                    Some(CancelacionPendiente { oid, solicitante: caller }),
                ),
                ..self
            }
        }
    }

    /// `caller` is the party of the order other than `solicitante`.
    pub open spec fn es_contraparte(self, caller: AccountId, oid: u32, solicitante: AccountId) -> bool {
        let o = self.orden(oid);
        (solicitante == o.comprador && caller == o.vendedor) || (solicitante == o.vendedor
            && caller == o.comprador)
    }

    /// The checks shared by accepting and rejecting a request.
    pub open spec fn fallo_resolver(self, caller: AccountId, oid: u32) -> Option<Error> {
        if self.cancelacion(oid) is None {
            Some(Error::CancelacionInexistente)
        } else if !self.hay_orden(oid) {
            Some(Error::OrdenInexistente)
        } else if self.orden(oid).estado is Cancelada {
            Some(Error::OrdenCancelada)
        } else if !activa(self.orden(oid).estado) {
            Some(Error::EstadoInvalido)
        } else if caller == self.cancelacion(oid)->0.solicitante {
            Some(Error::SolicitanteCancelacion)
        } else if !self.es_contraparte(caller, oid, self.cancelacion(oid)->0.solicitante) {
            Some(Error::SinPermiso)
        } else {
            None
        }
    }

    pub open spec fn fallo_aceptar_cancelacion(self, caller: AccountId, oid: u32) -> Option<Error> {
        if self.fallo_resolver(caller, oid) is Some {
            self.fallo_resolver(caller, oid)
        } else if !self.stock_restaurable(oid) {
            Some(Error::StockOverflow)
        } else {
            None
        }
    }

    pub open spec fn tras_rechazar_cancelacion(self, oid: u32) -> Modelo {
        Modelo { cancelaciones: self.cancelaciones.update(oid - 1, None), ..self }
    }

    // ---- ratings ----

    pub open spec fn fallo_calificar_vendedor(self, caller: AccountId, oid: u32, puntos: u8) -> Option<
        Error,
    > {
        if !self.hay_orden(oid) {
            Some(Error::OrdenInexistente)
        } else if self.orden(oid).comprador != caller {
            Some(Error::SinPermiso)
        } else if !(self.orden(oid).estado is Recibido) {
            Some(Error::OrdenNoRecibida)
        } else if !(1 <= puntos <= 5) {
            Some(Error::CalificacionInvalida)
        } else if self.calificaciones[oid - 1].comprador_califico {
            Some(Error::YaCalificado)
        } else if !cabe(self.reputacion_actual(self.orden(oid).vendedor).como_vendedor, puntos) {
            Some(Error::OverflowAritmetico)
        } else if !cabe(
            self.categoria_actual(self.producto(self.orden(oid).id_prod).categoria@),
            puntos,
        ) {
            Some(Error::OverflowAritmetico)
        } else {
            None
        }
    }

    pub open spec fn tras_calificar_vendedor(self, oid: u32, puntos: u8) -> Modelo {
        let o = self.orden(oid);
        let rep = self.reputacion_actual(o.vendedor);
        let cat = self.producto(o.id_prod).categoria;
        Modelo {
            calificaciones: self.calificaciones.update(
                oid - 1,
                CalificacionOrden { comprador_califico: true, ..self.calificaciones[oid - 1] },
            ),
            reputaciones: con_valor(
                self.reputaciones,
                o.vendedor,
                ReputacionUsuario { como_vendedor: sumar(rep.como_vendedor, puntos), ..rep },
            ),
            categorias: con_valor_nombre(
                self.categorias,
                cat,
                sumar(self.categoria_actual(cat@), puntos),
            ),
            ..self
        }
    }

    pub open spec fn fallo_calificar_comprador(self, caller: AccountId, oid: u32, puntos: u8) -> Option<
        Error,
    > {
        if !self.hay_orden(oid) {
            Some(Error::OrdenInexistente)
        } else if self.orden(oid).vendedor != caller {
            Some(Error::SinPermiso)
        } else if !(self.orden(oid).estado is Recibido) {
            Some(Error::OrdenNoRecibida)
        } else if !(1 <= puntos <= 5) {
            Some(Error::CalificacionInvalida)
        } else if self.calificaciones[oid - 1].vendedor_califico {
            Some(Error::YaCalificado)
        } else if !cabe(self.reputacion_actual(self.orden(oid).comprador).como_comprador, puntos) {
            Some(Error::OverflowAritmetico)
        } else {
            None
        }
    }

    pub open spec fn tras_calificar_comprador(self, oid: u32, puntos: u8) -> Modelo {
        let o = self.orden(oid);
        let rep = self.reputacion_actual(o.comprador);
        Modelo {
            calificaciones: self.calificaciones.update(
                oid - 1,
                CalificacionOrden { vendedor_califico: true, ..self.calificaciones[oid - 1] },
            ),
            reputaciones: con_valor(
                self.reputaciones,
                o.comprador,
                ReputacionUsuario { como_comprador: sumar(rep.como_comprador, puntos), ..rep },
            ),
            ..self
        }
    }
}

} // verus!
