//! Every transition of the model keeps its invariant.
use vstd::prelude::*;

use crate::cuenta::{AccountId, Balance};
use crate::modelo::{
    activa, aporte, aporte_a, en_escrow, lema_suma_push, lema_suma_update, montos, reservado, suma,
    Modelo,
};
use crate::tabla::{lema_con_nombre, lema_con_valor};
use crate::tipos::{Estado, Orden, Producto, Rol};

verus! {

/// No order of `s` is for listing `pid`: none of its units are held.
pub proof fn lema_reservado_cero(s: Seq<Orden>, pid: int)
    requires
        forall|i: int| 0 <= i < s.len() ==> (#[trigger] s[i]).id_prod != pid,
    ensures
        reservado(s, pid) == 0,
    decreases s.len(),
{
    if s.len() > 0 {
        let t = s.drop_last();
        assert forall|i: int| 0 <= i < t.len() implies (#[trigger] t[i]).id_prod != pid by {
            assert(t[i] == s[i]);
        }
        lema_reservado_cero(t, pid);
    }
}

/// Changing the state of order `oid` moves the held units of each listing by
/// the change of that order's share, and the escrow total by the change of
/// its entry.
pub proof fn lema_reservado_estado(m: Modelo, oid: u32, e: Estado)
    requires
        m.hay_orden(oid),
    ensures
        forall|pid: int|
            #[trigger] reservado(m.con_estado(oid, e), pid) == reservado(m.ordenes, pid) - aporte(
                m.orden(oid),
                pid,
            ) + aporte(Orden { estado: e, ..m.orden(oid) }, pid),
{
    assert forall|pid: int|
        #[trigger] reservado(m.con_estado(oid, e), pid) == reservado(m.ordenes, pid) - aporte(
            m.orden(oid),
            pid,
        ) + aporte(Orden { estado: e, ..m.orden(oid) }, pid) by {
        lema_suma_update(m.ordenes, oid - 1, Orden { estado: e, ..m.orden(oid) }, aporte_a(pid));
    }
}

pub proof fn lema_wf_registrar(m: Modelo, caller: AccountId, rol: Rol)
    requires
        m.wf(),
        m.fallo_registrar(caller) is None,
    ensures
        m.tras_registrar(caller, rol).wf(),
{
    lema_con_valor(m.roles, caller, rol);
}

pub proof fn lema_wf_modificar_rol(m: Modelo, caller: AccountId, rol: Rol)
    requires
        m.wf(),
    ensures
        m.tras_modificar_rol(caller, rol).wf(),
{
    lema_con_valor(m.roles, caller, rol);
}

pub proof fn lema_wf_publicar(m: Modelo, p: Producto)
    requires
        m.wf(),
        m.productos.len() + 1 < u32::MAX,
    ensures
        m.tras_publicar(p).wf(),
{
    let t = m.tras_publicar(p);
    let n = m.productos.len() as int;
    assert forall|i: int| 0 <= i < m.ordenes.len() implies (#[trigger] m.ordenes[i]).id_prod != n
        + 1 by {}
    lema_reservado_cero(m.ordenes, n + 1);
    assert forall|q: int| 0 <= q < t.productos.len() implies #[trigger] t.stock_inicial[q]
        <= u32::MAX && t.productos[q].stock + reservado(t.ordenes, q + 1) == t.stock_inicial[q] by {
        if q < n {
            assert(m.stock_inicial[q] <= u32::MAX);
        }
    }
}

pub proof fn lema_wf_comprar(m: Modelo, comprador: AccountId, id_prod: u32, cant: u32, pago: Balance)
    requires
        m.wf(),
        m.fallo_comprar(comprador, id_prod, cant, pago) is None,
    ensures
        m.tras_comprar(comprador, id_prod, cant, pago).wf(),
{
    let t = m.tras_comprar(comprador, id_prod, cant, pago);
    let o = t.ordenes.last();
    assert(t.ordenes =~= m.ordenes.push(o));
    assert forall|q: int| 0 <= q < t.productos.len() implies #[trigger] t.stock_inicial[q]
        <= u32::MAX && t.productos[q].stock + reservado(t.ordenes, q + 1) == t.stock_inicial[q] by {
        assert(m.stock_inicial[q] <= u32::MAX);
        lema_suma_push(m.ordenes, o, aporte_a(q + 1));
    }
    lema_suma_push(m.escrow, Some(pago), montos());
    assert forall|i: int| 0 <= i < t.ordenes.len() implies 1 <= #[trigger] t.ordenes[i].id_prod
        <= t.productos.len() by {
        if i < m.ordenes.len() {
            assert(t.ordenes[i] == m.ordenes[i]);
        }
    }
    assert forall|i: int| 0 <= i < t.ordenes.len() implies #[trigger] t.escrow[i] == if activa(
        t.ordenes[i].estado,
    ) {
        Some(t.ordenes[i].monto_total)
    } else {
        None
    } by {
        if i < m.ordenes.len() {
            assert(t.ordenes[i] == m.ordenes[i]);
            assert(t.escrow[i] == m.escrow[i]);
        }
    }
    assert forall|i: int| 0 <= i < t.ordenes.len() && (#[trigger] t.cancelaciones[i]) is Some implies {
        &&& activa(t.ordenes[i].estado)
        &&& t.cancelaciones[i]->0.oid == i + 1
    } by {
        if i < m.ordenes.len() {
            assert(t.ordenes[i] == m.ordenes[i]);
            assert(t.cancelaciones[i] == m.cancelaciones[i]);
        }
    }
}

pub proof fn lema_wf_marcar_enviado(m: Modelo, caller: AccountId, oid: u32)
    requires
        m.wf(),
        m.fallo_marcar_enviado(caller, oid) is None,
    ensures
        m.tras_marcar_enviado(oid).wf(),
{
    let t = m.tras_marcar_enviado(oid);
    lema_reservado_estado(m, oid, Estado::Enviado);
    assert forall|q: int| 0 <= q < t.productos.len() implies #[trigger] t.stock_inicial[q]
        <= u32::MAX && t.productos[q].stock + reservado(t.ordenes, q + 1) == t.stock_inicial[q] by {
        assert(reservado(t.ordenes, q + 1) == reservado(m.ordenes, q + 1));
    }
    assert(m.escrow[oid - 1] == Some(m.orden(oid).monto_total));
}

pub proof fn lema_wf_marcar_recibido(m: Modelo, caller: AccountId, oid: u32)
    requires
        m.wf(),
        m.fallo_marcar_recibido(caller, oid) is None,
    ensures
        m.tras_marcar_recibido(oid).wf(),
{
    let t = m.tras_marcar_recibido(oid);
    lema_reservado_estado(m, oid, Estado::Recibido);
    assert forall|q: int| 0 <= q < t.productos.len() implies #[trigger] t.stock_inicial[q]
        <= u32::MAX && t.productos[q].stock + reservado(t.ordenes, q + 1) == t.stock_inicial[q] by {
        assert(reservado(t.ordenes, q + 1) == reservado(m.ordenes, q + 1));
    }
    assert(m.escrow[oid - 1] == Some(m.orden(oid).monto_total));
    lema_suma_update(m.escrow, oid - 1, None, montos());
}

/// Cancelling an active order keeps the invariant.
pub proof fn lema_wf_cancelar(m: Modelo, oid: u32)
    requires
        m.wf(),
        m.hay_orden(oid),
        activa(m.orden(oid).estado),
        m.stock_restaurable(oid),
    ensures
        m.tras_cancelar(oid).wf(),
{
    let t = m.tras_cancelar(oid);
    let o = m.orden(oid);
    lema_reservado_estado(m, oid, Estado::Cancelada);
    assert forall|q: int| 0 <= q < t.productos.len() implies #[trigger] t.stock_inicial[q]
        <= u32::MAX && t.productos[q].stock + reservado(t.ordenes, q + 1) == t.stock_inicial[q] by {
        assert(m.stock_inicial[q] <= u32::MAX);
        assert(reservado(t.ordenes, q + 1) == reservado(m.ordenes, q + 1) - aporte(o, q + 1));
    }
    assert(m.escrow[oid - 1] == Some(o.monto_total));
    lema_suma_update(m.escrow, oid - 1, None, montos());
}

pub proof fn lema_wf_solicitar_cancelacion(m: Modelo, caller: AccountId, oid: u32)
    requires
        m.wf(),
        m.fallo_solicitar_cancelacion(caller, oid) is None,
    ensures
        m.tras_solicitar_cancelacion(caller, oid).wf(),
{
    if m.cancela_directo(caller, oid) {
        lema_wf_cancelar(m, oid);
    }
}

pub proof fn lema_wf_aceptar_cancelacion(m: Modelo, caller: AccountId, oid: u32)
    requires
        m.wf(),
        m.fallo_aceptar_cancelacion(caller, oid) is None,
    ensures
        m.tras_cancelar(oid).wf(),
{
    lema_wf_cancelar(m, oid);
}

pub proof fn lema_wf_rechazar_cancelacion(m: Modelo, oid: u32)
    requires
        m.wf(),
        m.hay_orden(oid),
    ensures
        m.tras_rechazar_cancelacion(oid).wf(),
{
}

pub proof fn lema_wf_calificar_vendedor(m: Modelo, caller: AccountId, oid: u32, puntos: u8)
    requires
        m.wf(),
        m.fallo_calificar_vendedor(caller, oid, puntos) is None,
    ensures
        m.tras_calificar_vendedor(oid, puntos).wf(),
{
    let o = m.orden(oid);
    let rep = m.reputacion_actual(o.vendedor);
    let cat = m.producto(o.id_prod).categoria;
    lema_con_valor(m.reputaciones, o.vendedor, crate::tipos::ReputacionUsuario {
        como_vendedor: crate::modelo::sumar(rep.como_vendedor, puntos),
        ..rep
    });
    lema_con_nombre(m.categorias, cat, crate::modelo::sumar(m.categoria_actual(cat@), puntos));
}

pub proof fn lema_wf_calificar_comprador(m: Modelo, caller: AccountId, oid: u32, puntos: u8)
    requires
        m.wf(),
        m.fallo_calificar_comprador(caller, oid, puntos) is None,
    ensures
        m.tras_calificar_comprador(oid, puntos).wf(),
{
    let o = m.orden(oid);
    let rep = m.reputacion_actual(o.comprador);
    lema_con_valor(m.reputaciones, o.comprador, crate::tipos::ReputacionUsuario {
        como_comprador: crate::modelo::sumar(rep.como_comprador, puntos),
        ..rep
    });
}

} // verus!
