//! Laws of the marketplace, proved over the model that the operations'
//! contracts speak of.
use vstd::prelude::*;

use crate::cuenta::{AccountId, Balance};
use crate::invariante::lema_reservado_estado;
use crate::modelo::{activa, aporte, aporte_a, en_escrow, lema_suma_no_negativa, reservado, suma, Modelo};
use crate::tipos::{es_terminal, puede_comprar, transicion_permitida, Error, Estado, Orden, Rol};

verus! {

/// A sum of non-negative terms is at least each of its terms.
proof fn lema_suma_cota<T>(s: Seq<T>, i: int, f: spec_fn(T) -> int)
    requires
        0 <= i < s.len(),
        forall|x: T| #[trigger] f(x) >= 0,
    ensures
        suma(s, f) >= f(s[i]),
    decreases s.len(),
{
    lema_suma_no_negativa(s.drop_last(), f);
    if i < s.len() - 1 {
        assert(s.drop_last()[i] == s[i]);
        lema_suma_cota(s.drop_last(), i, f);
    }
}

/// Stock conservation: the units left of a listing plus the units held by
/// its orders that were not cancelled are the units it was published with.
pub proof fn ley_conservacion_stock(m: Modelo, pid: u32)
    requires
        m.wf(),
        m.hay_producto(pid),
    ensures
        m.producto(pid).stock + reservado(m.ordenes, pid as int) == m.stock_inicial[pid - 1],
{
    assert(m.stock_inicial[pid - 1] <= u32::MAX);
}

/// Cancelling an active order always fits the stock counter, and gives back
/// to its listing exactly the units it reserved, leaving the other listings
/// and the held units of every listing in balance.
pub proof fn ley_cancelacion_restaura(m: Modelo, oid: u32)
    requires
        m.wf(),
        m.hay_orden(oid),
        activa(m.orden(oid).estado),
    ensures
        m.stock_restaurable(oid),
        m.tras_cancelar(oid).producto(m.orden(oid).id_prod).stock == m.producto(
            m.orden(oid).id_prod,
        ).stock + m.orden(oid).cantidad,
        forall|pid: u32|
            m.hay_producto(pid) && pid != m.orden(oid).id_prod ==> #[trigger] m.tras_cancelar(
                oid,
            ).producto(pid) == m.producto(pid),
        forall|pid: int|
            #[trigger] reservado(m.tras_cancelar(oid).ordenes, pid) == reservado(m.ordenes, pid)
                - aporte(m.orden(oid), pid),
{
    let o = m.orden(oid);
    let pid = o.id_prod;
    assert(m.ordenes[oid - 1] == o);
    assert forall|x: Orden| #[trigger] aporte_a(pid as int)(x) >= 0 by {}
    lema_suma_cota(m.ordenes, oid - 1, aporte_a(pid as int));
    assert(m.stock_inicial[pid - 1] <= u32::MAX);
    lema_reservado_estado(m, oid, Estado::Cancelada);
}

/// Escrow conservation: an order holds exactly its total in escrow while it
/// is `Pendiente` or `Enviado`, and nothing otherwise; all funds ever paid
/// in are released, refunded or still held.
pub proof fn ley_conservacion_escrow(m: Modelo, oid: u32)
    requires
        m.wf(),
    ensures
        m.hay_orden(oid) ==> (m.escrow_de(oid) == Some(m.orden(oid).monto_total) <==> activa(
            m.orden(oid).estado,
        )),
        m.hay_orden(oid) && !activa(m.orden(oid).estado) ==> m.escrow_de(oid) is None,
        !m.hay_orden(oid) ==> m.escrow_de(oid) is None,
        m.depositado == m.liberado + m.reembolsado + en_escrow(m.escrow),
{
    if m.hay_orden(oid) {
        assert(m.escrow[oid - 1] == if activa(m.ordenes[oid - 1].estado) {
            Some(m.ordenes[oid - 1].monto_total)
        } else {
            None
        });
    }
}

/// `Recibido` and `Cancelada` are terminal: the state machine leaves neither.
/// Every other state has a way out.
pub proof fn ley_estados_terminales(desde: Estado, hacia: Estado)
    ensures
        es_terminal(desde) && transicion_permitida(desde, hacia) ==> hacia == desde,
        !es_terminal(desde) ==> transicion_permitida(desde, Estado::Cancelada) && Estado::Cancelada
            != desde,
{
}

/// On an order in a terminal state every operation that needs a live order
/// is refused (and a refused operation changes nothing).
pub proof fn ley_operaciones_sobre_terminal(m: Modelo, caller: AccountId, oid: u32)
    requires
        m.wf(),
        m.hay_orden(oid),
        es_terminal(m.orden(oid).estado),
    ensures
        m.fallo_marcar_enviado(caller, oid) is Some,
        m.fallo_marcar_recibido(caller, oid) is Some,
        m.fallo_solicitar_cancelacion(caller, oid) is Some,
        m.fallo_aceptar_cancelacion(caller, oid) is Some,
        m.fallo_resolver(caller, oid) is Some,
{
    assert(m.cancelaciones[oid - 1] is None);
}

/// Every order of `m` is still in `t`, with the same parties, listing,
/// quantity and total, and its state moved along a permitted transition.
pub open spec fn solo_transiciones_permitidas(m: Modelo, t: Modelo) -> bool {
    &&& m.ordenes.len() <= t.ordenes.len()
    &&& forall|i: int|
        0 <= i < m.ordenes.len() ==> {
            &&& transicion_permitida(m.ordenes[i].estado, #[trigger] t.ordenes[i].estado)
            &&& t.ordenes[i] == Orden { estado: t.ordenes[i].estado, ..m.ordenes[i] }
        }
}

/// Every successful operation moves orders only along the state machine.
pub proof fn ley_transiciones(
    m: Modelo,
    caller: AccountId,
    oid: u32,
    id_prod: u32,
    cant: u32,
    pago: Balance,
    puntos: u8,
)
    requires
        m.wf(),
    ensures
        m.fallo_comprar(caller, id_prod, cant, pago) is None ==> solo_transiciones_permitidas(
            m,
            m.tras_comprar(caller, id_prod, cant, pago),
        ),
        m.fallo_marcar_enviado(caller, oid) is None ==> solo_transiciones_permitidas(
            m,
            m.tras_marcar_enviado(oid),
        ),
        m.fallo_marcar_recibido(caller, oid) is None ==> solo_transiciones_permitidas(
            m,
            m.tras_marcar_recibido(oid),
        ),
        m.fallo_solicitar_cancelacion(caller, oid) is None ==> solo_transiciones_permitidas(
            m,
            m.tras_solicitar_cancelacion(caller, oid),
        ),
        m.fallo_aceptar_cancelacion(caller, oid) is None ==> solo_transiciones_permitidas(
            m,
            m.tras_cancelar(oid),
        ),
        m.fallo_resolver(caller, oid) is None ==> solo_transiciones_permitidas(
            m,
            m.tras_rechazar_cancelacion(oid),
        ),
        m.fallo_calificar_vendedor(caller, oid, puntos) is None ==> solo_transiciones_permitidas(
            m,
            m.tras_calificar_vendedor(oid, puntos),
        ),
        m.fallo_calificar_comprador(caller, oid, puntos) is None ==> solo_transiciones_permitidas(
            m,
            m.tras_calificar_comprador(oid, puntos),
        ),
{
}

/// Rating is once per order and direction: after a successful rating, a
/// second one by the same party on the same order with a valid score is
/// refused with `YaCalificado`.
pub proof fn ley_calificacion_unica(m: Modelo, caller: AccountId, oid: u32, puntos: u8, otros: u8)
    requires
        m.wf(),
        1 <= otros <= 5,
    ensures
        m.fallo_calificar_vendedor(caller, oid, puntos) is None ==> m.tras_calificar_vendedor(
            oid,
            puntos,
        ).fallo_calificar_vendedor(caller, oid, otros) == Some(Error::YaCalificado),
        m.fallo_calificar_comprador(caller, oid, puntos) is None ==> m.tras_calificar_comprador(
            oid,
            puntos,
        ).fallo_calificar_comprador(caller, oid, otros) == Some(Error::YaCalificado),
{
}

/// A purchase that passes every other check succeeds exactly when the amount
/// tendered is the unit price times the quantity; less is refused with
/// `PagoInsuficiente`, more with `PagoExcesivo`.
pub proof fn ley_pago_exacto(m: Modelo, comprador: AccountId, id_prod: u32, cant: u32, pago: Balance)
    requires
        m.wf(),
        m.rol(comprador) is Some,
        puede_comprar(m.rol(comprador)->0),
        cant > 0,
        m.hay_producto(id_prod),
        m.producto(id_prod).vendedor != comprador,
        m.producto(id_prod).stock >= cant,
        m.ordenes.len() + 1 < u32::MAX,
    ensures
        m.fallo_comprar(comprador, id_prod, cant, pago) is None <==> pago == m.producto(
            id_prod,
        ).precio * cant,
        pago < m.producto(id_prod).precio * cant ==> m.fallo_comprar(comprador, id_prod, cant, pago)
            == Some(Error::PagoInsuficiente),
        pago > m.producto(id_prod).precio * cant ==> m.fallo_comprar(comprador, id_prod, cant, pago)
            == Some(Error::PagoExcesivo),
{
}

} // verus!
