//! The order engine: every operation on the marketplace, validated before
//! anything is changed, so that a refused operation leaves no trace.
use vstd::prelude::*;

use crate::cuenta::{AccountId, Balance};
use crate::invariante::{
    lema_wf_aceptar_cancelacion, lema_wf_calificar_comprador, lema_wf_calificar_vendedor,
    lema_wf_cancelar, lema_wf_marcar_enviado, lema_wf_marcar_recibido, lema_wf_modificar_rol,
    lema_wf_publicar, lema_wf_rechazar_cancelacion, lema_wf_registrar,
    lema_wf_solicitar_cancelacion, lema_wf_comprar,
};
use crate::modelo::{activa, monto, sumar, Modelo};
use crate::tabla::{asignar_cuenta, asignar_nombre, buscar_cuenta, buscar_nombre, lema_con_valor};
use crate::tipos::{
    CalificacionOrden, CancelacionPendiente, Error, Estado, Orden, Producto, ReputacionUsuario, Rol,
    MAX_CATEGORIA_LEN, MAX_DESCRIPCION_LEN, MAX_NOMBRE_LEN,
};

verus! {

/// The marketplace ledger.
pub struct Marketplace {
    roles: Vec<(AccountId, Rol)>,
    productos: Vec<Producto>,
    ordenes: Vec<Orden>,
    escrow: Vec<Option<Balance>>,
    cancelaciones: Vec<Option<CancelacionPendiente>>,
    calificaciones: Vec<CalificacionOrden>,
    reputaciones: Vec<(AccountId, ReputacionUsuario)>,
    categorias: Vec<(String, (u32, u32))>,
    stock_inicial: Ghost<Seq<nat>>,
    depositado: Ghost<int>,
    liberado: Ghost<int>,
    reembolsado: Ghost<int>,
}

impl View for Marketplace {
    type V = Modelo;

    closed spec fn view(&self) -> Modelo {
        Modelo {
            roles: self.roles@,
            productos: self.productos@,
            ordenes: self.ordenes@,
            escrow: self.escrow@,
            cancelaciones: self.cancelaciones@,
            calificaciones: self.calificaciones@,
            reputaciones: self.reputaciones@,
            categorias: self.categorias@,
            stock_inicial: self.stock_inicial@,
            depositado: self.depositado@,
            liberado: self.liberado@,
            reembolsado: self.reembolsado@,
        }
    }
}

/// A copy of a listing, with its strings.
fn copiar_producto(p: &Producto) -> (r: Producto)
    ensures
        r == *p,
{
    Producto {
        vendedor: p.vendedor,
        nombre: p.nombre.clone(),
        descripcion: p.descripcion.clone(),
        precio: p.precio,
        stock: p.stock,
        categoria: p.categoria.clone(),
    }
}

/// `Ok(())` when `cond` holds, `Err(err)` otherwise.
fn ensure(cond: bool, err: Error) -> (r: Result<(), Error>)
    ensures
        r == if cond {
            Ok::<(), Error>(())
        } else {
            Err(err)
        },
{
    if cond {
        Ok(())
    } else {
        Err(err)
    }
}

impl Marketplace {
    /// The invariant of the ledger.
    pub open spec fn wf(&self) -> bool {
        self@.wf()
    }

    /// An empty marketplace: nobody registered, no listing, no order.
    pub fn new() -> (r: Marketplace)
        ensures
            r.wf(),
            r@.roles.len() == 0,
            r@.productos.len() == 0,
            r@.ordenes.len() == 0,
            r@.reputaciones.len() == 0,
            r@.categorias.len() == 0,
            r@.depositado == 0,
            r@.liberado == 0,
            r@.reembolsado == 0,
    {
        let r = Marketplace {
            roles: Vec::new(),
            productos: Vec::new(),
            ordenes: Vec::new(),
            escrow: Vec::new(),
            cancelaciones: Vec::new(),
            calificaciones: Vec::new(),
            reputaciones: Vec::new(),
            categorias: Vec::new(),
            stock_inicial: Ghost(Seq::empty()),
            depositado: Ghost(0),
            liberado: Ghost(0),
            reembolsado: Ghost(0),
        };
        assert(r@.escrow =~= Seq::<Option<Balance>>::empty());
        r
    }

    /// The role of `quien`, or `SinRegistro`.
    fn rol_de(&self, quien: &AccountId) -> (r: Result<Rol, Error>)
        requires
            self.wf(),
        ensures
            r == match self@.rol(*quien) {
                Some(x) => Ok::<Rol, Error>(x),
                None => Err(Error::SinRegistro),
            },
    {
        match buscar_cuenta(&self.roles, quien) {
            Some(i) => Ok(self.roles[i].1),
            None => Err(Error::SinRegistro),
        }
    }

    /// Registers `caller` with `rol`; refused when `caller` is already registered.
    pub fn registrar(&mut self, caller: AccountId, rol: Rol) -> (r: Result<(), Error>)
        requires
            old(self).wf(),
        ensures
            final(self).wf(),
            r == match old(self)@.fallo_registrar(caller) {
                Some(e) => Err(e),
                None => Ok::<(), Error>(()),
            },
            final(self)@ == if r is Ok {
                old(self)@.tras_registrar(caller, rol)
            } else {
                old(self)@
            },
            r is Ok ==> final(self)@.rol(caller) == Some(rol),
            forall|b: AccountId| b != caller ==> #[trigger] final(self)@.rol(b) == old(self)@.rol(b),
    {
        proof {
            lema_con_valor(self.roles@, caller, rol);
        }
        if buscar_cuenta(&self.roles, &caller).is_some() {
            return Err(Error::YaRegistrado);
        }
        proof {
            lema_wf_registrar(self@, caller, rol);
        }
        self.roles.push((caller, rol));
        Ok(())
    }

    /// The role of `usuario`, if registered.
    pub fn obtener_rol(&self, usuario: AccountId) -> (r: Option<Rol>)
        requires
            self.wf(),
        ensures
            r == self@.rol(usuario),
    {
        match buscar_cuenta(&self.roles, &usuario) {
            Some(i) => Some(self.roles[i].1),
            None => None,
        }
    }

    /// Replaces the role of `caller`; refused when `caller` is not registered.
    pub fn modificar_rol(&mut self, caller: AccountId, nuevo_rol: Rol) -> (r: Result<(), Error>)
        requires
            old(self).wf(),
        ensures
            final(self).wf(),
            r == match old(self)@.fallo_modificar_rol(caller) {
                Some(e) => Err(e),
                None => Ok::<(), Error>(()),
            },
            final(self)@ == if r is Ok {
                old(self)@.tras_modificar_rol(caller, nuevo_rol)
            } else {
                old(self)@
            },
            r is Ok ==> final(self)@.rol(caller) == Some(nuevo_rol),
            forall|b: AccountId| b != caller ==> #[trigger] final(self)@.rol(b) == old(self)@.rol(b),
    {
        proof {
            lema_con_valor(self.roles@, caller, nuevo_rol);
        }
        if buscar_cuenta(&self.roles, &caller).is_none() {
            return Err(Error::SinRegistro);
        }
        proof {
            lema_wf_modificar_rol(self@, caller, nuevo_rol);
        }
        asignar_cuenta(&mut self.roles, caller, nuevo_rol);
        Ok(())
    }
    /// Publishes a listing of `vendedor` and returns its id.
    pub fn publicar(
        &mut self,
        vendedor: AccountId,
        nombre: String,
        descripcion: String,
        precio: Balance,
        stock: u32,
        categoria: String,
    ) -> (r: Result<u32, Error>)
        requires
            old(self).wf(),
        ensures
            final(self).wf(),
            r == match old(self)@.fallo_publicar(
                vendedor,
                nombre@,
                descripcion@,
                precio,
                stock,
                categoria@,
            ) {
                Some(e) => Err(e),
                None => Ok::<u32, Error>(old(self)@.proximo_producto()),
            },
            final(self)@ == if r is Ok {
                old(self)@.tras_publicar(
                    (Producto { vendedor, nombre, descripcion, precio, stock, categoria }),
                )
            } else {
                old(self)@
            },
    {
        let rol = match self.rol_de(&vendedor) {
            Ok(x) => x,
            Err(e) => return Err(e),
        };
        if !rol.es_vendedor() {
            return Err(Error::SinPermiso);
        }
        let n_nombre = nombre.as_str().unicode_len();
        let n_descripcion = descripcion.as_str().unicode_len();
        let n_categoria = categoria.as_str().unicode_len();
        if !(precio > 0 && stock > 0 && 1 <= n_nombre && n_nombre <= MAX_NOMBRE_LEN && 1
            <= n_descripcion && n_descripcion <= MAX_DESCRIPCION_LEN && 1 <= n_categoria
            && n_categoria <= MAX_CATEGORIA_LEN) {
            return Err(Error::ParamInvalido);
        }
        let pid = self.productos.len() as u32 + 1;
        if pid.checked_add(1).is_none() {
            return Err(Error::IdOverflow);
        }
        let producto = Producto { vendedor, nombre, descripcion, precio, stock, categoria };
        proof {
            lema_wf_publicar(self@, producto);
        }
        self.productos.push(producto);
        self.stock_inicial = Ghost(self.stock_inicial@.push(stock as nat));
        Ok(pid)
    }

    /// The listing with id `id`, if any.
    pub fn obtener_producto(&self, id: u32) -> (r: Option<Producto>)
        requires
            self.wf(),
        ensures
            r == if self@.hay_producto(id) {
                Some(self@.producto(id))
            } else {
                None
            },
    {
        if id == 0 || id as usize > self.productos.len() {
            None
        } else {
            Some(copiar_producto(&self.productos[(id - 1) as usize]))
        }
    }

    /// Buys `cant` units of listing `id_prod` for `comprador`, who tenders
    /// `pago`; returns the id of the new order. The payment must be exactly
    /// the unit price times the quantity; it is held in escrow.
    pub fn comprar(&mut self, comprador: AccountId, id_prod: u32, cant: u32, pago: Balance) -> (r:
        Result<u32, Error>)
        requires
            old(self).wf(),
        ensures
            final(self).wf(),
            r == match old(self)@.fallo_comprar(comprador, id_prod, cant, pago) {
                Some(e) => Err(e),
                None => Ok::<u32, Error>(old(self)@.proxima_orden()),
            },
            final(self)@ == if r is Ok {
                old(self)@.tras_comprar(comprador, id_prod, cant, pago)
            } else {
                old(self)@
            },
    {
        let rol = match self.rol_de(&comprador) {
            Ok(x) => x,
            Err(e) => return Err(e),
        };
        if !rol.es_comprador() {
            return Err(Error::SinPermiso);
        }
        if cant == 0 {
            return Err(Error::ParamInvalido);
        }
        if id_prod == 0 || id_prod as usize > self.productos.len() {
            return Err(Error::ProdInexistente);
        }
        let ip = (id_prod - 1) as usize;
        let vendedor = self.productos[ip].vendedor;
        let stock = self.productos[ip].stock;
        let precio = self.productos[ip].precio;
        if vendedor == comprador {
            return Err(Error::AutoCompraProhibida);
        }
        if stock < cant {
            return Err(Error::StockInsuf);
        }
        let total = match precio.checked_mul(cant as u128) {
            Some(t) => t,
            None => return Err(Error::PagoInsuficiente),
        };
        if pago < total {
            return Err(Error::PagoInsuficiente);
        }
        if pago > total {
            return Err(Error::PagoExcesivo);
        }
        let oid = self.ordenes.len() as u32 + 1;
        if oid.checked_add(1).is_none() {
            return Err(Error::IdOverflow);
        }
        proof {
            lema_wf_comprar(self@, comprador, id_prod, cant, pago);
        }
        let mut producto = copiar_producto(&self.productos[ip]);
        producto.stock = stock - cant;
        self.productos.set(ip, producto);
        self.ordenes.push(
            Orden {
                comprador,
                vendedor,
                id_prod,
                cantidad: cant,
                monto_total: pago,
                estado: Estado::Pendiente,
            },
        );
        self.escrow.push(Some(pago));
        self.cancelaciones.push(None);
        self.calificaciones.push(
            CalificacionOrden { comprador_califico: false, vendedor_califico: false },
        );
        self.depositado = Ghost(self.depositado@ + pago);
        Ok(oid)
    }
    /// Marks order `oid` as shipped; only its seller may, and only while pending.
    pub fn marcar_enviado(&mut self, caller: AccountId, oid: u32) -> (r: Result<(), Error>)
        requires
            old(self).wf(),
        ensures
            final(self).wf(),
            r == match old(self)@.fallo_marcar_enviado(caller, oid) {
                Some(e) => Err(e),
                None => Ok::<(), Error>(()),
            },
            final(self)@ == if r is Ok {
                old(self)@.tras_marcar_enviado(oid)
            } else {
                old(self)@
            },
    {
        if oid == 0 || oid as usize > self.ordenes.len() {
            return Err(Error::OrdenInexistente);
        }
        let i = (oid - 1) as usize;
        let orden = self.ordenes[i];
        if orden.vendedor != caller {
            return Err(Error::SinPermiso);
        }
        match orden.estado {
            Estado::Cancelada => return Err(Error::OrdenCancelada),
            Estado::Pendiente => {},
            _ => return Err(Error::EstadoInvalido),
        }
        proof {
            lema_wf_marcar_enviado(self@, caller, oid);
        }
        self.ordenes.set(i, Orden { estado: Estado::Enviado, ..orden });
        Ok(())
    }

    /// Confirms receipt of order `oid`; only its buyer may, and only once
    /// shipped. The escrowed amount is released to the seller and any pending
    /// cancellation request is dropped.
    pub fn marcar_recibido(&mut self, caller: AccountId, oid: u32) -> (r: Result<(), Error>)
        requires
            old(self).wf(),
        ensures
            final(self).wf(),
            r == match old(self)@.fallo_marcar_recibido(caller, oid) {
                Some(e) => Err(e),
                None => Ok::<(), Error>(()),
            },
            final(self)@ == if r is Ok {
                old(self)@.tras_marcar_recibido(oid)
            } else {
                old(self)@
            },
    {
        if oid == 0 || oid as usize > self.ordenes.len() {
            return Err(Error::OrdenInexistente);
        }
        let i = (oid - 1) as usize;
        let orden = self.ordenes[i];
        if orden.comprador != caller {
            return Err(Error::SinPermiso);
        }
        match orden.estado {
            Estado::Cancelada => return Err(Error::OrdenCancelada),
            Estado::Enviado => {},
            _ => return Err(Error::EstadoInvalido),
        }
        proof {
            lema_wf_marcar_recibido(self@, caller, oid);
        }
        self.ordenes.set(i, Orden { estado: Estado::Recibido, ..orden });
        self.escrow.set(i, None);
        self.cancelaciones.set(i, None);
        self.liberado = Ghost(self.liberado@ + orden.monto_total);
        Ok(())
    }

    /// Cancels active order `oid`: restores its units to the listing, refunds
    /// its escrow and drops any pending request.
    fn cancelar(&mut self, oid: u32) -> (r: Result<(), Error>)
        requires
            old(self).wf(),
            old(self)@.hay_orden(oid),
            activa(old(self)@.orden(oid).estado),
        ensures
            final(self).wf(),
            r == if old(self)@.stock_restaurable(oid) {
                Ok::<(), Error>(())
            } else {
                Err(Error::StockOverflow)
            },
            final(self)@ == if r is Ok {
                old(self)@.tras_cancelar(oid)
            } else {
                old(self)@
            },
    {
        let i = (oid - 1) as usize;
        let orden = self.ordenes[i];
        let ip = (orden.id_prod - 1) as usize;
        let stock = match self.productos[ip].stock.checked_add(orden.cantidad) {
            Some(x) => x,
            None => return Err(Error::StockOverflow),
        };
        proof {
            lema_wf_cancelar(self@, oid);
        }
        let mut producto = copiar_producto(&self.productos[ip]);
        producto.stock = stock;
        self.productos.set(ip, producto);
        self.ordenes.set(i, Orden { estado: Estado::Cancelada, ..orden });
        self.escrow.set(i, None);
        self.cancelaciones.set(i, None);
        self.reembolsado = Ghost(self.reembolsado@ + orden.monto_total);
        Ok(())
    }

    /// Asks to cancel order `oid`. The buyer of a pending order cancels it at
    /// once; otherwise a request is recorded for the other party to accept
    /// or reject, at most one per order.
    pub fn solicitar_cancelacion(&mut self, caller: AccountId, oid: u32) -> (r: Result<(), Error>)
        requires
            old(self).wf(),
        ensures
            final(self).wf(),
            r == match old(self)@.fallo_solicitar_cancelacion(caller, oid) {
                Some(e) => Err(e),
                None => Ok::<(), Error>(()),
            },
            final(self)@ == if r is Ok {
                old(self)@.tras_solicitar_cancelacion(caller, oid)
            } else {
                old(self)@
            },
    {
        if oid == 0 || oid as usize > self.ordenes.len() {
            return Err(Error::OrdenInexistente);
        }
        let i = (oid - 1) as usize;
        let orden = self.ordenes[i];
        if let Estado::Cancelada = orden.estado {
            return Err(Error::OrdenCancelada);
        }
        if caller != orden.comprador && caller != orden.vendedor {
            return Err(Error::SinPermiso);
        }
        let pendiente = match orden.estado {
            Estado::Pendiente => true,
            Estado::Enviado => false,
            _ => return Err(Error::EstadoInvalido),
        };
        if pendiente && caller == orden.comprador {
            return self.cancelar(oid);
        }
        if self.cancelaciones[i].is_some() {
            return Err(Error::CancelacionYaPendiente);
        }
        proof {
            lema_wf_solicitar_cancelacion(self@, caller, oid);
        }
        self.cancelaciones.set(i, Some(CancelacionPendiente { oid, solicitante: caller }));
        Ok(())
    }

    /// The checks shared by accepting and rejecting a cancellation request;
    /// returns the order's position.
    fn validar_resolucion(&self, caller: AccountId, oid: u32) -> (r: Result<usize, Error>)
        requires
            self.wf(),
        ensures
            match self@.fallo_resolver(caller, oid) {
                Some(e) => r == Err::<usize, Error>(e),
                None => r == Ok::<usize, Error>((oid - 1) as usize),
            },
    {
        if oid == 0 || oid as usize > self.ordenes.len() {
            return Err(Error::CancelacionInexistente);
        }
        let i = (oid - 1) as usize;
        let solicitante = match self.cancelaciones[i] {
            Some(c) => c.solicitante,
            None => return Err(Error::CancelacionInexistente),
        };
        let orden = self.ordenes[i];
        match orden.estado {
            Estado::Cancelada => return Err(Error::OrdenCancelada),
            Estado::Pendiente | Estado::Enviado => {},
            Estado::Recibido => return Err(Error::EstadoInvalido),
        }
        if caller == solicitante {
            return Err(Error::SolicitanteCancelacion);
        }
        if !es_otro_participante(caller, &orden, solicitante) {
            return Err(Error::SinPermiso);
        }
        Ok(i)
    }

    /// Accepts the pending request to cancel order `oid`; only the party
    /// other than the requester may. The order is cancelled as by `cancelar`.
    pub fn aceptar_cancelacion(&mut self, caller: AccountId, oid: u32) -> (r: Result<(), Error>)
        requires
            old(self).wf(),
        ensures
            final(self).wf(),
            r == match old(self)@.fallo_aceptar_cancelacion(caller, oid) {
                Some(e) => Err(e),
                None => Ok::<(), Error>(()),
            },
            final(self)@ == if r is Ok {
                old(self)@.tras_cancelar(oid)
            } else {
                old(self)@
            },
    {
        if let Err(e) = self.validar_resolucion(caller, oid) {
            return Err(e);
        }
        proof {
            if self@.stock_restaurable(oid) {
                lema_wf_aceptar_cancelacion(self@, caller, oid);
            }
        }
        self.cancelar(oid)
    }

    /// Rejects the pending request to cancel order `oid`; only the party
    /// other than the requester may. The order is left as it was and may be
    /// asked to be cancelled again.
    pub fn rechazar_cancelacion(&mut self, caller: AccountId, oid: u32) -> (r: Result<(), Error>)
        requires
            old(self).wf(),
        ensures
            final(self).wf(),
            r == match old(self)@.fallo_resolver(caller, oid) {
                Some(e) => Err(e),
                None => Ok::<(), Error>(()),
            },
            final(self)@ == if r is Ok {
                old(self)@.tras_rechazar_cancelacion(oid)
            } else {
                old(self)@
            },
    {
        let i = match self.validar_resolucion(caller, oid) {
            Ok(i) => i,
            Err(e) => return Err(e),
        };
        proof {
            lema_wf_rechazar_cancelacion(self@, oid);
        }
        self.cancelaciones.set(i, None);
        Ok(())
    }
    /// The reputation record of `a`, empty when `a` was never rated.
    fn reputacion_actual(&self, a: &AccountId) -> (r: ReputacionUsuario)
        requires
            self.wf(),
        ensures
            r == self@.reputacion_actual(*a),
    {
        match buscar_cuenta(&self.reputaciones, a) {
            Some(j) => self.reputaciones[j].1,
            None => ReputacionUsuario { como_comprador: (0, 0), como_vendedor: (0, 0) },
        }
    }

    /// The buyer of order `oid` rates its seller with `puntos` (1 to 5), once,
    /// after receipt. The score is added to the seller's record as a seller
    /// and to the aggregate of the listing's category.
    pub fn calificar_vendedor(&mut self, caller: AccountId, oid: u32, puntos: u8) -> (r: Result<
        (),
        Error,
    >)
        requires
            old(self).wf(),
        ensures
            final(self).wf(),
            r == match old(self)@.fallo_calificar_vendedor(caller, oid, puntos) {
                Some(e) => Err(e),
                None => Ok::<(), Error>(()),
            },
            final(self)@ == if r is Ok {
                old(self)@.tras_calificar_vendedor(oid, puntos)
            } else {
                old(self)@
            },
            r is Ok ==> final(self)@.reputacion(old(self)@.orden(oid).vendedor) == Some(
                ReputacionUsuario {
                    como_vendedor: sumar(
                        old(self)@.reputacion_actual(old(self)@.orden(oid).vendedor).como_vendedor,
                        puntos,
                    ),
                    ..old(self)@.reputacion_actual(old(self)@.orden(oid).vendedor)
                },
            ),
            forall|b: AccountId|
                b != old(self)@.orden(oid).vendedor ==> #[trigger] final(self)@.reputacion(b)
                    == old(self)@.reputacion(b),
    {
        if oid == 0 || oid as usize > self.ordenes.len() {
            return Err(Error::OrdenInexistente);
        }
        let i = (oid - 1) as usize;
        let orden = self.ordenes[i];
        if orden.comprador != caller {
            return Err(Error::SinPermiso);
        }
        if let Estado::Recibido = orden.estado {
        } else {
            return Err(Error::OrdenNoRecibida);
        }
        if puntos < 1 || puntos > 5 {
            return Err(Error::CalificacionInvalida);
        }
        let calif = self.calificaciones[i];
        if calif.comprador_califico {
            return Err(Error::YaCalificado);
        }
        let rep = self.reputacion_actual(&orden.vendedor);
        let suma = match rep.como_vendedor.0.checked_add(puntos as u32) {
            Some(x) => x,
            None => return Err(Error::OverflowAritmetico),
        };
        let cuenta = match rep.como_vendedor.1.checked_add(1) {
            Some(x) => x,
            None => return Err(Error::OverflowAritmetico),
        };
        let ip = (orden.id_prod - 1) as usize;
        let cat = match buscar_nombre(&self.categorias, &self.productos[ip].categoria) {
            Some(j) => self.categorias[j].1,
            None => (0, 0),
        };
        let cat_suma = match cat.0.checked_add(puntos as u32) {
            Some(x) => x,
            None => return Err(Error::OverflowAritmetico),
        };
        let cat_cuenta = match cat.1.checked_add(1) {
            Some(x) => x,
            None => return Err(Error::OverflowAritmetico),
        };
        proof {
            lema_wf_calificar_vendedor(self@, caller, oid, puntos);
            lema_con_valor(
                self.reputaciones@,
                orden.vendedor,
                ReputacionUsuario { como_vendedor: (suma, cuenta), ..rep },
            );
        }
        self.calificaciones.set(i, CalificacionOrden { comprador_califico: true, ..calif });
        asignar_cuenta(
            &mut self.reputaciones,
            orden.vendedor,
            ReputacionUsuario { como_vendedor: (suma, cuenta), ..rep },
        );
        let categoria = self.productos[ip].categoria.clone();
        asignar_nombre(&mut self.categorias, categoria, (cat_suma, cat_cuenta));
        Ok(())
    }

    /// The seller of order `oid` rates its buyer with `puntos` (1 to 5), once,
    /// after receipt. The score is added to the buyer's record as a buyer.
    pub fn calificar_comprador(&mut self, caller: AccountId, oid: u32, puntos: u8) -> (r: Result<
        (),
        Error,
    >)
        requires
            old(self).wf(),
        ensures
            final(self).wf(),
            r == match old(self)@.fallo_calificar_comprador(caller, oid, puntos) {
                Some(e) => Err(e),
                None => Ok::<(), Error>(()),
            },
            final(self)@ == if r is Ok {
                old(self)@.tras_calificar_comprador(oid, puntos)
            } else {
                old(self)@
            },
            r is Ok ==> final(self)@.reputacion(old(self)@.orden(oid).comprador) == Some(
                ReputacionUsuario {
                    como_comprador: sumar(
                        old(self)@.reputacion_actual(old(self)@.orden(oid).comprador).como_comprador,
                        puntos,
                    ),
                    ..old(self)@.reputacion_actual(old(self)@.orden(oid).comprador)
                },
            ),
            forall|b: AccountId|
                b != old(self)@.orden(oid).comprador ==> #[trigger] final(self)@.reputacion(b)
                    == old(self)@.reputacion(b),
    {
        if oid == 0 || oid as usize > self.ordenes.len() {
            return Err(Error::OrdenInexistente);
        }
        let i = (oid - 1) as usize;
        let orden = self.ordenes[i];
        if orden.vendedor != caller {
            return Err(Error::SinPermiso);
        }
        if let Estado::Recibido = orden.estado {
        } else {
            return Err(Error::OrdenNoRecibida);
        }
        if puntos < 1 || puntos > 5 {
            return Err(Error::CalificacionInvalida);
        }
        let calif = self.calificaciones[i];
        if calif.vendedor_califico {
            return Err(Error::YaCalificado);
        }
        let rep = self.reputacion_actual(&orden.comprador);
        let suma = match rep.como_comprador.0.checked_add(puntos as u32) {
            Some(x) => x,
            None => return Err(Error::OverflowAritmetico),
        };
        let cuenta = match rep.como_comprador.1.checked_add(1) {
            Some(x) => x,
            None => return Err(Error::OverflowAritmetico),
        };
        proof {
            lema_wf_calificar_comprador(self@, caller, oid, puntos);
            lema_con_valor(
                self.reputaciones@,
                orden.comprador,
                ReputacionUsuario { como_comprador: (suma, cuenta), ..rep },
            );
        }
        self.calificaciones.set(i, CalificacionOrden { vendedor_califico: true, ..calif });
        asignar_cuenta(
            &mut self.reputaciones,
            orden.comprador,
            ReputacionUsuario { como_comprador: (suma, cuenta), ..rep },
        );
        Ok(())
    }
}

impl Marketplace {
    /// Order `id`, for its buyer or seller only.
    pub fn obtener_orden(&self, caller: AccountId, id: u32) -> (r: Result<Orden, Error>)
        requires
            self.wf(),
        ensures
            r == if !self@.hay_orden(id) {
                Err(Error::OrdenInexistente)
            } else if self@.orden(id).comprador != caller && self@.orden(id).vendedor != caller {
                Err(Error::SinPermiso)
            } else {
                Ok::<Orden, Error>(self@.orden(id))
            },
    {
        if id == 0 || id as usize > self.ordenes.len() {
            return Err(Error::OrdenInexistente);
        }
        let orden = self.ordenes[(id - 1) as usize];
        if let Err(e) = ensure(orden.comprador == caller || orden.vendedor == caller, Error::SinPermiso) {
            return Err(e);
        }
        Ok(orden)
    }

    /// Order `id`, for anyone.
    pub fn obtener_orden_publica(&self, id: u32) -> (r: Option<Orden>)
        requires
            self.wf(),
        ensures
            r == if self@.hay_orden(id) {
                Some(self@.orden(id))
            } else {
                None
            },
    {
        if id == 0 || id as usize > self.ordenes.len() {
            None
        } else {
            Some(self.ordenes[(id - 1) as usize])
        }
    }

    /// The amount held in escrow for order `oid`; zero when none is held.
    pub fn obtener_fondos_retenidos(&self, oid: u32) -> (r: Balance)
        requires
            self.wf(),
        ensures
            r == monto(self@.escrow_de(oid)),
    {
        if oid == 0 || oid as usize > self.escrow.len() {
            0
        } else {
            match self.escrow[(oid - 1) as usize] {
                Some(x) => x,
                None => 0,
            }
        }
    }

    /// The pending cancellation request of order `oid`, if any.
    pub fn obtener_cancelacion(&self, oid: u32) -> (r: Option<CancelacionPendiente>)
        requires
            self.wf(),
        ensures
            r == self@.cancelacion(oid),
    {
        if oid == 0 || oid as usize > self.cancelaciones.len() {
            None
        } else {
            self.cancelaciones[(oid - 1) as usize]
        }
    }

    /// The ratings `usuario` has received, if any.
    pub fn obtener_reputacion(&self, usuario: AccountId) -> (r: Option<ReputacionUsuario>)
        requires
            self.wf(),
        ensures
            r == self@.reputacion(usuario),
    {
        match buscar_cuenta(&self.reputaciones, &usuario) {
            Some(j) => Some(self.reputaciones[j].1),
            None => None,
        }
    }

    /// Sum and count of the seller ratings given in `categoria`, if any.
    pub fn obtener_calificacion_categoria(&self, categoria: String) -> (r: Option<(u32, u32)>)
        requires
            self.wf(),
        ensures
            r == self@.categoria(categoria@),
    {
        match buscar_nombre(&self.categorias, &categoria) {
            Some(j) => Some(self.categorias[j].1),
            None => None,
        }
    }

    /// The number of listings published.
    pub fn get_total_productos(&self) -> (r: u32)
        requires
            self.wf(),
        ensures
            r == self@.productos.len(),
    {
        self.productos.len() as u32
    }

    /// The number of orders created.
    pub fn get_total_ordenes(&self) -> (r: u32)
        requires
            self.wf(),
        ensures
            r == self@.ordenes.len(),
    {
        self.ordenes.len() as u32
    }

    /// All registered participants, in order of registration.
    pub fn listar_usuarios(&self) -> (r: Vec<AccountId>)
        requires
            self.wf(),
        ensures
            r@ == self@.roles.map_values(|e: (AccountId, Rol)| e.0),
    {
        let mut r: Vec<AccountId> = Vec::new();
        let mut i: usize = 0;
        while i < self.roles.len()
            invariant
                0 <= i <= self.roles@.len(),
                r@ == self.roles@.subrange(0, i as int).map_values(|e: (AccountId, Rol)| e.0),
            decreases self.roles@.len() - i,
        {
            r.push(self.roles[i].0);
            i = i + 1;
            assert(self.roles@.subrange(0, i as int).map_values(|e: (AccountId, Rol)| e.0)
                =~= r@);
        }
        assert(self.roles@.subrange(0, i as int) =~= self.roles@);
        r
    }

    /// All listings with their ids.
    pub fn listar_todos_productos(&self) -> (r: Vec<(u32, Producto)>)
        requires
            self.wf(),
        ensures
            r@.len() == self@.productos.len(),
            forall|k: int|
                0 <= k < r@.len() ==> #[trigger] r@[k] == ((k + 1) as u32, self@.productos[k]),
    {
        let mut r: Vec<(u32, Producto)> = Vec::new();
        let mut i: usize = 0;
        while i < self.productos.len()
            invariant
                0 <= i <= self.productos@.len(),
                self.productos@.len() < u32::MAX,
                r@.len() == i,
                forall|k: int| 0 <= k < i ==> #[trigger] r@[k] == ((k + 1) as u32, self.productos@[k]),
            decreases self.productos@.len() - i,
        {
            r.push((i as u32 + 1, copiar_producto(&self.productos[i])));
            i = i + 1;
        }
        r
    }

    /// All orders with their ids.
    pub fn listar_todas_ordenes(&self) -> (r: Vec<(u32, Orden)>)
        requires
            self.wf(),
        ensures
            r@.len() == self@.ordenes.len(),
            forall|k: int|
                0 <= k < r@.len() ==> #[trigger] r@[k] == ((k + 1) as u32, self@.ordenes[k]),
    {
        let mut r: Vec<(u32, Orden)> = Vec::new();
        let mut i: usize = 0;
        while i < self.ordenes.len()
            invariant
                0 <= i <= self.ordenes@.len(),
                self.ordenes@.len() < u32::MAX,
                r@.len() == i,
                forall|k: int| 0 <= k < i ==> #[trigger] r@[k] == ((k + 1) as u32, self.ordenes@[k]),
            decreases self.ordenes@.len() - i,
        {
            r.push((i as u32 + 1, self.ordenes[i]));
            i = i + 1;
        }
        r
    }

    /// All reputation records with the participant they belong to.
    pub fn listar_todas_reputaciones(&self) -> (r: Vec<(AccountId, ReputacionUsuario)>)
        requires
            self.wf(),
        ensures
            r@ == self@.reputaciones,
    {
        let mut r: Vec<(AccountId, ReputacionUsuario)> = Vec::new();
        let mut i: usize = 0;
        while i < self.reputaciones.len()
            invariant
                0 <= i <= self.reputaciones@.len(),
                r@ == self.reputaciones@.subrange(0, i as int),
            decreases self.reputaciones@.len() - i,
        {
            r.push(self.reputaciones[i]);
            i = i + 1;
            assert(self.reputaciones@.subrange(0, i as int) =~= r@);
        }
        assert(self.reputaciones@.subrange(0, i as int) =~= self.reputaciones@);
        r
    }

    /// The listings published by `vendedor`, in order of publication.
    pub fn listar_productos_de_vendedor(&self, vendedor: AccountId) -> (r: Vec<Producto>)
        requires
            self.wf(),
        ensures
            r@ == self@.productos.filter(|p: Producto| p.vendedor == vendedor),
    {
        let mut r: Vec<Producto> = Vec::new();
        let mut i: usize = 0;
        while i < self.productos.len()
            invariant
                0 <= i <= self.productos@.len(),
                r@ == self.productos@.subrange(0, i as int).filter(
                    |p: Producto| p.vendedor == vendedor,
                ),
            decreases self.productos@.len() - i,
        {
            proof {
                assert(self.productos@.subrange(0, i + 1) =~= self.productos@.subrange(
                    0,
                    i as int,
                ).push(self.productos@[i as int]));
                self.productos@.subrange(0, i as int).lemma_filter_push(
                    self.productos@[i as int],
                    |p: Producto| p.vendedor == vendedor,
                );
            }
            if self.productos[i].vendedor == vendedor {
                r.push(copiar_producto(&self.productos[i]));
            }
            i = i + 1;
        }
        assert(self.productos@.subrange(0, i as int) =~= self.productos@);
        r
    }

    /// The orders placed by `comprador`, in order of creation.
    pub fn listar_ordenes_de_comprador(&self, comprador: AccountId) -> (r: Vec<Orden>)
        requires
            self.wf(),
        ensures
            r@ == self@.ordenes.filter(|o: Orden| o.comprador == comprador),
    {
        let mut r: Vec<Orden> = Vec::new();
        let mut i: usize = 0;
        while i < self.ordenes.len()
            invariant
                0 <= i <= self.ordenes@.len(),
                r@ == self.ordenes@.subrange(0, i as int).filter(
                    |o: Orden| o.comprador == comprador,
                ),
            decreases self.ordenes@.len() - i,
        {
            proof {
                assert(self.ordenes@.subrange(0, i + 1) =~= self.ordenes@.subrange(
                    0,
                    i as int,
                ).push(self.ordenes@[i as int]));
                self.ordenes@.subrange(0, i as int).lemma_filter_push(
                    self.ordenes@[i as int],
                    |o: Orden| o.comprador == comprador,
                );
            }
            if self.ordenes[i].comprador == comprador {
                r.push(self.ordenes[i]);
            }
            i = i + 1;
        }
        assert(self.ordenes@.subrange(0, i as int) =~= self.ordenes@);
        r
    }
}

impl Default for Marketplace {
    fn default() -> (r: Marketplace)
        ensures
            r.wf(),
            r@.roles.len() == 0,
            r@.productos.len() == 0,
            r@.ordenes.len() == 0,
    {
        Marketplace::new()
    }
}

/// Whether `caller` is the party of `orden` other than `solicitante`.
fn es_otro_participante(caller: AccountId, orden: &Orden, solicitante: AccountId) -> (r: bool)
    ensures
        r == ((solicitante == orden.comprador && caller == orden.vendedor) || (solicitante
            == orden.vendedor && caller == orden.comprador)),
{
    (solicitante == orden.comprador && caller == orden.vendedor) || (solicitante == orden.vendedor
        && caller == orden.comprador)
}

} // verus!
