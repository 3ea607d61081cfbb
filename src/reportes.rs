//! Read-only reports over snapshots of the marketplace: reputation rankings,
//! best-selling listings, per-category statistics and per-participant order
//! counts. Counters saturate at the bound of `u32`.
use vstd::prelude::*;

use crate::cuenta::AccountId;
use crate::marketplace::Marketplace;
use crate::modelo::{lema_suma_no_negativa, lema_suma_push, suma, Modelo};
use crate::ranking::{orden_estable, ordenar_posiciones};
use crate::tipos::{Estado, Orden, Producto, ReputacionUsuario, Rol};

verus! {

/// A participant with the average of the ratings received in one role.
#[derive(Clone, Copy, Debug, PartialEq, Eq)]
pub struct UsuarioConReputacion {
    pub usuario: AccountId,
    /// The average rating times 100 (450 stands for 4.50).
    pub promedio_x100: u32,
    /// How many ratings were received.
    pub cantidad_calificaciones: u32,
}

/// A listing with the units sold in received orders.
#[derive(Clone, Debug, PartialEq, Eq)]
pub struct ProductoVendido {
    pub id_producto: u32,
    pub nombre: String,
    pub categoria: String,
    pub vendedor: AccountId,
    pub unidades_vendidas: u32,
}

/// Aggregates of one category.
#[derive(Clone, Debug, PartialEq, Eq)]
pub struct EstadisticasCategoria {
    pub categoria: String,
    /// Received orders of listings in the category.
    pub total_ventas: u32,
    /// Units in those orders.
    pub total_unidades: u32,
    /// Average seller rating in the category times 100; zero without ratings.
    pub calificacion_promedio_x100: u32,
    /// Listings published in the category.
    pub cantidad_productos: u32,
}

/// Order counts of one participant.
#[derive(Clone, Copy, Debug, PartialEq, Eq)]
pub struct OrdenesUsuario {
    pub usuario: AccountId,
    pub ordenes_como_comprador: u32,
    pub ordenes_como_vendedor: u32,
    /// Orders bought and received.
    pub completadas_como_comprador: u32,
    /// Orders sold and received.
    pub completadas_como_vendedor: u32,
}

/// Why a report was refused.
#[derive(Clone, Copy, Debug, PartialEq, Eq, Structural)]
pub enum Error {
    /// No listing has this category.
    CategoriaNoEncontrada,
}

/// Reports on the marketplace published at `marketplace_address`.
#[derive(Clone, Copy, Debug)]
pub struct Reportes {
    marketplace_address: AccountId,
}

/// `x` clamped to the range of `u32`.
pub open spec fn saturar(x: int) -> u32 {
    if x >= u32::MAX {
        u32::MAX
    } else if x <= 0 {
        0
    } else {
        x as u32
    }
}

/// Average of `suma / cantidad` ratings times 100, the product saturating;
/// zero when there are no ratings.
pub open spec fn promedio_x100(suma: u32, cantidad: u32) -> u32 {
    if cantidad == 0 {
        0
    } else {
        (saturar(suma * 100) / cantidad) as u32
    }
}

fn calcular_promedio_x100(suma: u32, cantidad: u32) -> (r: u32)
    ensures
        r == promedio_x100(suma, cantidad),
{
    if cantidad == 0 {
        return 0;
    }
    let producto = match suma.checked_mul(100) {
        Some(x) => x,
        None => u32::MAX,
    };
    producto / cantidad
}

/// Adding `x` to a saturated sum saturates the whole sum.
fn sumar_saturado(acc: u32, x: u32) -> (r: u32)
    ensures
        r == saturar(acc + x),
{
    acc.saturating_add(x)
}

proof fn lema_saturar_suma(parcial: int, x: int)
    requires
        parcial >= 0,
        x >= 0,
    ensures
        saturar(saturar(parcial) + x) == saturar(parcial + x),
{
}

/// Sum of `f` over the first `i + 1` elements, from the first `i`.
proof fn lema_suma_prefijo<T>(s: Seq<T>, i: int, f: spec_fn(T) -> int)
    requires
        0 <= i < s.len(),
    ensures
        suma(s.subrange(0, i + 1), f) == suma(s.subrange(0, i), f) + f(s[i]),
{
    assert(s.subrange(0, i + 1) =~= s.subrange(0, i).push(s[i]));
    lema_suma_push(s.subrange(0, i), s[i], f);
}

/// Filter-map over the first `i + 1` elements, from the first `i`.
proof fn lema_filter_map_prefijo<A, B>(s: Seq<A>, i: int, f: spec_fn(A) -> Option<B>)
    requires
        0 <= i < s.len(),
    ensures
        s.subrange(0, i + 1).filter_map(f) == match f(s[i]) {
            Some(b) => s.subrange(0, i).filter_map(f).push(b),
            None => s.subrange(0, i).filter_map(f),
        },
{
    let t = s.subrange(0, i + 1);
    assert(t.drop_last() =~= s.subrange(0, i));
    assert(t.last() == s[i]);
    match f(s[i]) {
        Some(b) => {
            assert(t.filter_map(f) =~= s.subrange(0, i).filter_map(f).push(b));
        },
        None => {},
    }
}

// ---- reputation rankings ----

/// The ranking key: average first, then number of ratings.
pub open spec fn clave_reputacion(u: UsuarioConReputacion) -> u64 {
    (u.promedio_x100 as int * 0x1_0000_0000 + u.cantidad_calificaciones as int) as u64
}

/// `s` taken in the order of positions `p`.
pub open spec fn reordenado<T>(s: Seq<T>, p: Seq<usize>) -> Seq<T> {
    p.map_values(|k: usize| s[k as int])
}

/// `res` is `orig` sorted by descending average, then descending number of
/// ratings, participants with equal keys keeping their order.
pub open spec fn ordenado_por_reputacion(
    orig: Seq<UsuarioConReputacion>,
    res: Seq<UsuarioConReputacion>,
) -> bool {
    exists|p: Seq<usize>|
        orden_estable(orig.map_values(|u: UsuarioConReputacion| clave_reputacion(u)), p) && res
            == reordenado(orig, p)
}

/// The ranking entry for `acc` (sum, count) received by `usuario`; only
/// participants with at least one rating are ranked.
pub open spec fn con_reputacion(usuario: AccountId, acc: (u32, u32)) -> Option<
    UsuarioConReputacion,
> {
    if acc.1 > 0 {
        Some(
            UsuarioConReputacion {
                usuario,
                promedio_x100: promedio_x100(acc.0, acc.1),
                cantidad_calificaciones: acc.1,
            },
        )
    } else {
        None
    }
}

pub open spec fn como_vendedor(e: (AccountId, ReputacionUsuario)) -> Option<UsuarioConReputacion> {
    con_reputacion(e.0, e.1.como_vendedor)
}

pub open spec fn como_comprador(e: (AccountId, ReputacionUsuario)) -> Option<UsuarioConReputacion> {
    con_reputacion(e.0, e.1.como_comprador)
}

/// The first `limite` entries of a ranking.
pub open spec fn primeros<T>(s: Seq<T>, limite: u32) -> Seq<T> {
    if limite < s.len() {
        s.take(limite as int)
    } else {
        s
    }
}

/// The best `limite` of `candidatos` by reputation.
pub open spec fn es_top(
    candidatos: Seq<UsuarioConReputacion>,
    limite: u32,
    r: Seq<UsuarioConReputacion>,
) -> bool {
    exists|res: Seq<UsuarioConReputacion>|
        ordenado_por_reputacion(candidatos, res) && r == primeros(res, limite)
}

fn entrada_ranking(usuario: AccountId, acc: (u32, u32)) -> (r: Option<UsuarioConReputacion>)
    ensures
        r == con_reputacion(usuario, acc),
{
    if acc.1 > 0 {
        Some(
            UsuarioConReputacion {
                usuario,
                promedio_x100: calcular_promedio_x100(acc.0, acc.1),
                cantidad_calificaciones: acc.1,
            },
        )
    } else {
        None
    }
}

impl Reportes {
    /// The address of the marketplace reported on.
    pub closed spec fn direccion(&self) -> AccountId {
        self.marketplace_address
    }

    pub fn new(marketplace_address: AccountId) -> (r: Reportes)
        ensures
            r.direccion() == marketplace_address,
    {
        Reportes { marketplace_address }
    }

    /// The address of the marketplace reported on.
    pub fn get_marketplace(&self) -> (r: AccountId)
        ensures
            r == self.direccion(),
    {
        self.marketplace_address
    }

    /// Sorts by descending average, then descending number of ratings;
    /// entries with equal keys keep their order.
    pub fn _ordenar_por_reputacion(usuarios: &mut Vec<UsuarioConReputacion>)
        ensures
            ordenado_por_reputacion(old(usuarios)@, final(usuarios)@),
    {
        let mut claves: Vec<u64> = Vec::new();
        let mut i: usize = 0;
        while i < usuarios.len()
            invariant
                0 <= i <= usuarios@.len(),
                claves@ == usuarios@.subrange(0, i as int).map_values(
                    |u: UsuarioConReputacion| clave_reputacion(u),
                ),
            decreases usuarios@.len() - i,
        {
            let u = usuarios[i];
            claves.push(u.promedio_x100 as u64 * 0x1_0000_0000 + u.cantidad_calificaciones as u64);
            i = i + 1;
            assert(claves@ =~= usuarios@.subrange(0, i as int).map_values(
                |u: UsuarioConReputacion| clave_reputacion(u),
            ));
        }
        assert(usuarios@.subrange(0, i as int) =~= usuarios@);
        let p = ordenar_posiciones(&claves);
        let mut ordenados: Vec<UsuarioConReputacion> = Vec::new();
        let mut k: usize = 0;
        while k < p.len()
            invariant
                0 <= k <= p@.len(),
                orden_estable(claves@, p@),
                claves@.len() == usuarios@.len(),
                ordenados@ == reordenado(usuarios@, p@.subrange(0, k as int)),
            decreases p@.len() - k,
        {
            ordenados.push(usuarios[p[k]]);
            k = k + 1;
            assert(ordenados@ =~= reordenado(usuarios@, p@.subrange(0, k as int)));
        }
        assert(p@.subrange(0, k as int) =~= p@);
        *usuarios = ordenados;
    }

    /// Ranks the candidates picked by `elegir` from the reputation records
    /// and keeps the first `limite`.
    fn _procesar_top(
        reps: Vec<(AccountId, ReputacionUsuario)>,
        limite: u32,
        de_vendedor: bool,
    ) -> (r: Vec<UsuarioConReputacion>)
        ensures
            de_vendedor ==> es_top(
                reps@.filter_map(|e: (AccountId, ReputacionUsuario)| como_vendedor(e)),
                limite,
                r@,
            ),
            !de_vendedor ==> es_top(
                reps@.filter_map(|e: (AccountId, ReputacionUsuario)| como_comprador(e)),
                limite,
                r@,
            ),
    {
        let ghost f = if de_vendedor {
            |e: (AccountId, ReputacionUsuario)| como_vendedor(e)
        } else {
            |e: (AccountId, ReputacionUsuario)| como_comprador(e)
        };
        let mut candidatos: Vec<UsuarioConReputacion> = Vec::new();
        let mut i: usize = 0;
        while i < reps.len()
            invariant
                0 <= i <= reps@.len(),
                candidatos@ == reps@.subrange(0, i as int).filter_map(f),
                f == if de_vendedor {
                    |e: (AccountId, ReputacionUsuario)| como_vendedor(e)
                } else {
                    |e: (AccountId, ReputacionUsuario)| como_comprador(e)
                },
            decreases reps@.len() - i,
        {
            proof {
                lema_filter_map_prefijo(reps@, i as int, f);
            }
            let (usuario, rep) = reps[i];
            let acc = if de_vendedor {
                rep.como_vendedor
            } else {
                rep.como_comprador
            };
            if let Some(u) = entrada_ranking(usuario, acc) {
                candidatos.push(u);
            }
            i = i + 1;
        }
        assert(reps@.subrange(0, i as int) =~= reps@);
        let ghost todos = candidatos@;
        Self::_ordenar_por_reputacion(&mut candidatos);
        let ghost ordenados = candidatos@;
        candidatos.truncate(limite as usize);
        assert(ordenado_por_reputacion(todos, ordenados) && candidatos@ == primeros(
            ordenados,
            limite,
        ));
        candidatos
    }

    /// The best `limite` sellers by average rating, then by number of
    /// ratings; only sellers with at least one rating.
    pub fn _procesar_top_vendedores(reps: Vec<(AccountId, ReputacionUsuario)>, limite: u32) -> (r:
        Vec<UsuarioConReputacion>)
        ensures
            es_top(
                reps@.filter_map(|e: (AccountId, ReputacionUsuario)| como_vendedor(e)),
                limite,
                r@,
            ),
    {
        Self::_procesar_top(reps, limite, true)
    }

    /// The best `limite` buyers by average rating, then by number of
    /// ratings; only buyers with at least one rating.
    pub fn _procesar_top_compradores(reps: Vec<(AccountId, ReputacionUsuario)>, limite: u32) -> (r:
        Vec<UsuarioConReputacion>)
        ensures
            es_top(
                reps@.filter_map(|e: (AccountId, ReputacionUsuario)| como_comprador(e)),
                limite,
                r@,
            ),
    {
        Self::_procesar_top(reps, limite, false)
    }
}

// ---- order counts ----

/// 1 for the elements that satisfy `p`, 0 for the others.
pub open spec fn indicador<T>(p: spec_fn(T) -> bool) -> spec_fn(T) -> int {
    |x: T|
        if p(x) {
            1int
        } else {
            0int
        }
}

/// How many elements of `s` satisfy `p`.
pub open spec fn contar<T>(s: Seq<T>, p: spec_fn(T) -> bool) -> int {
    suma(s, indicador(p))
}

pub open spec fn compro(u: AccountId) -> spec_fn((u32, Orden)) -> bool {
    |e: (u32, Orden)| e.1.comprador == u
}

pub open spec fn vendio(u: AccountId) -> spec_fn((u32, Orden)) -> bool {
    |e: (u32, Orden)| e.1.vendedor == u
}

pub open spec fn compro_y_recibio(u: AccountId) -> spec_fn((u32, Orden)) -> bool {
    |e: (u32, Orden)| e.1.comprador == u && e.1.estado is Recibido
}

pub open spec fn vendio_y_entrego(u: AccountId) -> spec_fn((u32, Orden)) -> bool {
    |e: (u32, Orden)| e.1.vendedor == u && e.1.estado is Recibido
}

pub open spec fn recibida() -> spec_fn((u32, Orden)) -> bool {
    |e: (u32, Orden)| e.1.estado is Recibido
}

/// The order counts of `u` in `ordenes`.
pub open spec fn resumen_usuario(ordenes: Seq<(u32, Orden)>, u: AccountId) -> OrdenesUsuario {
    OrdenesUsuario {
        usuario: u,
        ordenes_como_comprador: saturar(contar(ordenes, compro(u))),
        ordenes_como_vendedor: saturar(contar(ordenes, vendio(u))),
        completadas_como_comprador: saturar(contar(ordenes, compro_y_recibio(u))),
        completadas_como_vendedor: saturar(contar(ordenes, vendio_y_entrego(u))),
    }
}

/// The counts of a participant with at least one order, as buyer or seller.
pub open spec fn resumen_si_activo(ordenes: Seq<(u32, Orden)>) -> spec_fn(AccountId) -> Option<
    OrdenesUsuario,
> {
    |u: AccountId|
        {
            let r = resumen_usuario(ordenes, u);
            if r.ordenes_como_comprador > 0 || r.ordenes_como_vendedor > 0 {
                Some(r)
            } else {
                None
            }
        }
}

/// Counting over the first `i + 1` elements, from the first `i`, saturated.
proof fn lema_contar_prefijo<T>(s: Seq<T>, i: int, p: spec_fn(T) -> bool)
    requires
        0 <= i < s.len(),
    ensures
        saturar(contar(s.subrange(0, i + 1), p)) == if p(s[i]) {
            saturar(saturar(contar(s.subrange(0, i), p)) + 1)
        } else {
            saturar(contar(s.subrange(0, i), p))
        },
{
    lema_suma_prefijo(s, i, indicador(p));
    assert forall|x: T| #[trigger] indicador(p)(x) >= 0 by {}
    lema_suma_no_negativa(s.subrange(0, i), indicador(p));
    lema_saturar_suma(contar(s.subrange(0, i), p), 1);
}

fn contar_ordenes(ordenes: &Vec<(u32, Orden)>, usuario: AccountId) -> (r: OrdenesUsuario)
    ensures
        r == resumen_usuario(ordenes@, usuario),
{
    let mut r = OrdenesUsuario {
        usuario,
        ordenes_como_comprador: 0,
        ordenes_como_vendedor: 0,
        completadas_como_comprador: 0,
        completadas_como_vendedor: 0,
    };
    let mut i: usize = 0;
    while i < ordenes.len()
        invariant
            0 <= i <= ordenes@.len(),
            r == resumen_usuario(ordenes@.subrange(0, i as int), usuario),
        decreases ordenes@.len() - i,
    {
        proof {
            lema_contar_prefijo(ordenes@, i as int, compro(usuario));
            lema_contar_prefijo(ordenes@, i as int, vendio(usuario));
            lema_contar_prefijo(ordenes@, i as int, compro_y_recibio(usuario));
            lema_contar_prefijo(ordenes@, i as int, vendio_y_entrego(usuario));
        }
        let orden = ordenes[i].1;
        let recibida = match orden.estado {
            Estado::Recibido => true,
            _ => false,
        };
        if orden.comprador == usuario {
            r.ordenes_como_comprador = sumar_saturado(r.ordenes_como_comprador, 1);
            if recibida {
                r.completadas_como_comprador = sumar_saturado(r.completadas_como_comprador, 1);
            }
        }
        if orden.vendedor == usuario {
            r.ordenes_como_vendedor = sumar_saturado(r.ordenes_como_vendedor, 1);
            if recibida {
                r.completadas_como_vendedor = sumar_saturado(r.completadas_como_vendedor, 1);
            }
        }
        i = i + 1;
    }
    assert(ordenes@.subrange(0, i as int) =~= ordenes@);
    r
}

impl Reportes {
    /// The order counts of `usuario`: as buyer and as seller, in total and
    /// received.
    pub fn _procesar_ordenes_por_usuario(ordenes: Vec<(u32, Orden)>, usuario: AccountId) -> (r:
        OrdenesUsuario)
        ensures
            r == resumen_usuario(ordenes@, usuario),
    {
        contar_ordenes(&ordenes, usuario)
    }

    /// The order counts of each participant of `usuarios` with at least one
    /// order, in the order of `usuarios`.
    pub fn _procesar_resumen_ordenes_todos_usuarios(
        usuarios: Vec<AccountId>,
        ordenes: Vec<(u32, Orden)>,
    ) -> (r: Vec<OrdenesUsuario>)
        ensures
            r@ == usuarios@.filter_map(resumen_si_activo(ordenes@)),
    {
        let mut r: Vec<OrdenesUsuario> = Vec::new();
        let mut i: usize = 0;
        while i < usuarios.len()
            invariant
                0 <= i <= usuarios@.len(),
                r@ == usuarios@.subrange(0, i as int).filter_map(resumen_si_activo(ordenes@)),
            decreases usuarios@.len() - i,
        {
            proof {
                lema_filter_map_prefijo(usuarios@, i as int, resumen_si_activo(ordenes@));
            }
            let info = contar_ordenes(&ordenes, usuarios[i]);
            if info.ordenes_como_comprador > 0 || info.ordenes_como_vendedor > 0 {
                r.push(info);
            }
            i = i + 1;
        }
        assert(usuarios@.subrange(0, i as int) =~= usuarios@);
        r
    }

    /// (participants, listings, orders, received orders).
    pub fn _procesar_resumen_general(
        total_usuarios: u32,
        total_productos: u32,
        ordenes: Vec<(u32, Orden)>,
    ) -> (r: (u32, u32, u32, u32))
        ensures
            r == (
                total_usuarios,
                total_productos,
                saturar(ordenes@.len() as int),
                saturar(contar(ordenes@, recibida())),
            ),
    {
        let mut completadas: u32 = 0;
        let mut i: usize = 0;
        while i < ordenes.len()
            invariant
                0 <= i <= ordenes@.len(),
                completadas == saturar(contar(ordenes@.subrange(0, i as int), recibida())),
            decreases ordenes@.len() - i,
        {
            proof {
                lema_contar_prefijo(ordenes@, i as int, recibida());
            }
            if let Estado::Recibido = ordenes[i].1.estado {
                completadas = sumar_saturado(completadas, 1);
            }
            i = i + 1;
        }
        assert(ordenes@.subrange(0, i as int) =~= ordenes@);
        let total_ordenes: u32 = if ordenes.len() >= u32::MAX as usize {
            u32::MAX
        } else {
            ordenes.len() as u32
        };
        (total_usuarios, total_productos, total_ordenes, completadas)
    }
}

// ---- categories ----

/// `k` is the first position of `s` whose element satisfies `p`.
pub open spec fn es_primera<T>(s: Seq<T>, p: spec_fn(T) -> bool, k: int) -> bool {
    &&& 0 <= k < s.len()
    &&& p(s[k])
    &&& forall|j: int| 0 <= j < k ==> !p(#[trigger] s[j])
}

/// The first position of `s` whose element satisfies `p`, if any.
pub open spec fn primera<T>(s: Seq<T>, p: spec_fn(T) -> bool) -> Option<int> {
    if exists|k: int| es_primera(s, p, k) {
        Some(choose|k: int| es_primera(s, p, k))
    } else {
        None
    }
}

proof fn lema_primera<T>(s: Seq<T>, p: spec_fn(T) -> bool, k: int)
    requires
        es_primera(s, p, k),
    ensures
        primera(s, p) == Some(k),
{
    let j = choose|j: int| es_primera(s, p, j);
    assert(es_primera(s, p, j));
    if j < k {
        assert(!p(s[j]));
    }
    if k < j {
        assert(!p(s[k]));
    }
}

pub open spec fn con_id(id: u32) -> spec_fn((u32, Producto)) -> bool {
    |e: (u32, Producto)| e.0 == id
}

pub open spec fn con_nombre(c: Seq<char>) -> spec_fn((String, (u32, u32))) -> bool {
    |e: (String, (u32, u32))| e.0@ == c
}

pub open spec fn de_categoria(c: Seq<char>) -> spec_fn((u32, Producto)) -> bool {
    |e: (u32, Producto)| e.1.categoria@ == c
}

/// The category of the first listing of `productos` with id `id`.
pub open spec fn categoria_de(productos: Seq<(u32, Producto)>, id: u32) -> Option<Seq<char>> {
    match primera(productos, con_id(id)) {
        Some(k) => Some(productos[k].1.categoria@),
        None => None,
    }
}

/// A received order of a listing in category `c`.
pub open spec fn vendida_en(productos: Seq<(u32, Producto)>, c: Seq<char>) -> spec_fn(
    (u32, Orden),
) -> bool {
    |e: (u32, Orden)| e.1.estado is Recibido && categoria_de(productos, e.1.id_prod) == Some(c)
}

pub open spec fn unidades_en(productos: Seq<(u32, Producto)>, c: Seq<char>) -> spec_fn(
    (u32, Orden),
) -> int {
    |e: (u32, Orden)|
        if vendida_en(productos, c)(e) {
            e.1.cantidad as int
        } else {
            0int
        }
}

/// The categories of `productos`, each once, in order of first appearance.
pub open spec fn categorias(productos: Seq<(u32, Producto)>) -> Seq<String>
    decreases productos.len(),
{
    if productos.len() == 0 {
        Seq::empty()
    } else {
        let c = categorias(productos.drop_last());
        let x = productos.last().1.categoria;
        if exists|k: int| 0 <= k < c.len() && c[k]@ == x@ {
            c
        } else {
            c.push(x)
        }
    }
}

/// The statistics of category `c` with seller ratings `calificacion`.
pub open spec fn estadisticas(
    productos: Seq<(u32, Producto)>,
    ordenes: Seq<(u32, Orden)>,
    c: String,
    calificacion: (u32, u32),
) -> EstadisticasCategoria {
    EstadisticasCategoria {
        categoria: c,
        total_ventas: saturar(contar(ordenes, vendida_en(productos, c@))),
        total_unidades: saturar(suma(ordenes, unidades_en(productos, c@))),
        calificacion_promedio_x100: promedio_x100(calificacion.0, calificacion.1),
        cantidad_productos: saturar(contar(productos, de_categoria(c@))),
    }
}

/// The ratings of the first entry of `calificaciones` named `c`; none
/// when there is no such entry.
pub open spec fn calificacion_de(calificaciones: Seq<(String, (u32, u32))>, c: Seq<char>) -> (
    u32,
    u32,
) {
    match primera(calificaciones, con_nombre(c)) {
        Some(k) => calificaciones[k].1,
        None => (0, 0),
    }
}

pub open spec fn estadisticas_con(
    productos: Seq<(u32, Producto)>,
    ordenes: Seq<(u32, Orden)>,
    calificaciones: Seq<(String, (u32, u32))>,
) -> spec_fn(String) -> EstadisticasCategoria {
    |c: String| estadisticas(productos, ordenes, c, calificacion_de(calificaciones, c@))
}

/// A saturated sum over the first `i + 1` elements, from the first `i`.
proof fn lema_suma_saturada_prefijo<T>(s: Seq<T>, i: int, f: spec_fn(T) -> int)
    requires
        0 <= i < s.len(),
        forall|x: T| #[trigger] f(x) >= 0,
    ensures
        saturar(suma(s.subrange(0, i + 1), f)) == saturar(saturar(suma(s.subrange(0, i), f)) + f(
            s[i],
        )),
{
    lema_suma_prefijo(s, i, f);
    lema_suma_no_negativa(s.subrange(0, i), f);
    lema_saturar_suma(suma(s.subrange(0, i), f), f(s[i]));
}

/// The position of the first listing with id `id`.
fn buscar_producto(productos: &Vec<(u32, Producto)>, id: u32) -> (r: Option<usize>)
    ensures
        match r {
            Some(k) => primera(productos@, con_id(id)) == Some(k as int),
            None => primera(productos@, con_id(id)) is None,
        },
{
    let mut k: usize = 0;
    while k < productos.len()
        invariant
            0 <= k <= productos@.len(),
            forall|j: int| 0 <= j < k ==> !con_id(id)(#[trigger] productos@[j]),
        decreases productos@.len() - k,
    {
        if productos[k].0 == id {
            proof {
                lema_primera(productos@, con_id(id), k as int);
            }
            return Some(k);
        }
        k = k + 1;
    }
    proof {
        if exists|j: int| es_primera(productos@, con_id(id), j) {
            let j = choose|j: int| es_primera(productos@, con_id(id), j);
            assert(!con_id(id)(productos@[j]));
        }
    }
    None
}

/// The position of the first entry named `c`.
fn buscar_calificacion(calificaciones: &Vec<(String, (u32, u32))>, c: &String) -> (r: Option<usize>)
    ensures
        match r {
            Some(k) => primera(calificaciones@, con_nombre(c@)) == Some(k as int),
            None => primera(calificaciones@, con_nombre(c@)) is None,
        },
{
    let mut k: usize = 0;
    while k < calificaciones.len()
        invariant
            0 <= k <= calificaciones@.len(),
            forall|j: int| 0 <= j < k ==> !con_nombre(c@)(#[trigger] calificaciones@[j]),
        decreases calificaciones@.len() - k,
    {
        if calificaciones[k].0 == *c {
            proof {
                lema_primera(calificaciones@, con_nombre(c@), k as int);
            }
            return Some(k);
        }
        k = k + 1;
    }
    proof {
        if exists|j: int| es_primera(calificaciones@, con_nombre(c@), j) {
            let j = choose|j: int| es_primera(calificaciones@, con_nombre(c@), j);
            assert(!con_nombre(c@)(calificaciones@[j]));
        }
    }
    None
}

fn categorias_de(productos: &Vec<(u32, Producto)>) -> (r: Vec<String>)
    ensures
        r@ == categorias(productos@),
{
    let mut r: Vec<String> = Vec::new();
    let mut i: usize = 0;
    while i < productos.len()
        invariant
            0 <= i <= productos@.len(),
            r@ == categorias(productos@.subrange(0, i as int)),
        decreases productos@.len() - i,
    {
        let ghost t = productos@.subrange(0, i + 1);
        assert(t.drop_last() =~= productos@.subrange(0, i as int));
        assert(t.last() == productos@[i as int]);
        let categoria = &productos[i].1.categoria;
        let mut esta = false;
        let mut k: usize = 0;
        while k < r.len()
            invariant
                0 <= k <= r@.len(),
                categoria@ == productos@[i as int].1.categoria@,
                esta == exists|j: int| 0 <= j < k && r@[j]@ == categoria@,
            decreases r@.len() - k,
        {
            if r[k] == *categoria {
                esta = true;
            }
            k = k + 1;
        }
        if !esta {
            r.push(categoria.clone());
        }
        i = i + 1;
    }
    assert(productos@.subrange(0, i as int) =~= productos@);
    r
}

fn estadisticas_de(
    productos: &Vec<(u32, Producto)>,
    ordenes: &Vec<(u32, Orden)>,
    categoria: String,
    calificacion: (u32, u32),
) -> (r: EstadisticasCategoria)
    ensures
        r == estadisticas(productos@, ordenes@, categoria, calificacion),
{
    let mut cantidad_productos: u32 = 0;
    let mut i: usize = 0;
    while i < productos.len()
        invariant
            0 <= i <= productos@.len(),
            cantidad_productos == saturar(
                contar(productos@.subrange(0, i as int), de_categoria(categoria@)),
            ),
        decreases productos@.len() - i,
    {
        proof {
            lema_contar_prefijo(productos@, i as int, de_categoria(categoria@));
        }
        if productos[i].1.categoria == categoria {
            cantidad_productos = sumar_saturado(cantidad_productos, 1);
        }
        i = i + 1;
    }
    assert(productos@.subrange(0, i as int) =~= productos@);
    let mut total_ventas: u32 = 0;
    let mut total_unidades: u32 = 0;
    let mut j: usize = 0;
    while j < ordenes.len()
        invariant
            0 <= j <= ordenes@.len(),
            total_ventas == saturar(
                contar(ordenes@.subrange(0, j as int), vendida_en(productos@, categoria@)),
            ),
            total_unidades == saturar(
                suma(ordenes@.subrange(0, j as int), unidades_en(productos@, categoria@)),
            ),
        decreases ordenes@.len() - j,
    {
        proof {
            lema_contar_prefijo(ordenes@, j as int, vendida_en(productos@, categoria@));
            assert forall|x: (u32, Orden)| #[trigger] unidades_en(productos@, categoria@)(x)
                >= 0 by {}
            lema_suma_saturada_prefijo(ordenes@, j as int, unidades_en(productos@, categoria@));
        }
        let orden = ordenes[j].1;
        if let Estado::Recibido = orden.estado {
            if let Some(k) = buscar_producto(productos, orden.id_prod) {
                if productos[k].1.categoria == categoria {
                    total_ventas = sumar_saturado(total_ventas, 1);
                    total_unidades = sumar_saturado(total_unidades, orden.cantidad);
                }
            }
        }
        j = j + 1;
    }
    assert(ordenes@.subrange(0, j as int) =~= ordenes@);
    EstadisticasCategoria {
        categoria,
        total_ventas,
        total_unidades,
        calificacion_promedio_x100: calcular_promedio_x100(calificacion.0, calificacion.1),
        cantidad_productos,
    }
}

impl Reportes {
    /// The categories of the listings, each once, in order of first appearance.
    pub fn _procesar_listar_categorias(productos: &Vec<(u32, Producto)>) -> (r: Vec<String>)
        ensures
            r@ == categorias(productos@),
    {
        categorias_de(productos)
    }

    /// The statistics of `categoria`; refused when no listing has it.
    /// `calificacion` is the (sum, count) of seller ratings in the category.
    pub fn _procesar_estadisticas_categoria(
        productos: Vec<(u32, Producto)>,
        ordenes: Vec<(u32, Orden)>,
        categoria: String,
        calificacion: (u32, u32),
    ) -> (r: Result<EstadisticasCategoria, Error>)
        ensures
            r == if contar(productos@, de_categoria(categoria@)) == 0 {
                Err(Error::CategoriaNoEncontrada)
            } else {
                Ok::<EstadisticasCategoria, Error>(
                    estadisticas(productos@, ordenes@, categoria, calificacion),
                )
            },
    {
        let ghost c = categoria@;
        let stats = estadisticas_de(&productos, &ordenes, categoria, calificacion);
        proof {
            assert forall|x: (u32, Producto)| #[trigger] indicador(de_categoria(c))(x) >= 0 by {}
            lema_suma_no_negativa(productos@, indicador(de_categoria(c)));
        }
        if stats.cantidad_productos == 0 {
            return Err(Error::CategoriaNoEncontrada);
        }
        Ok(stats)
    }

    /// The statistics of every category, in order of first appearance among
    /// the listings; the seller ratings of each come from `calificaciones`.
    pub fn _procesar_estadisticas_por_categoria(
        productos: Vec<(u32, Producto)>,
        ordenes: Vec<(u32, Orden)>,
        calificaciones: Vec<(String, (u32, u32))>,
    ) -> (r: Vec<EstadisticasCategoria>)
        ensures
            r@ == categorias(productos@).map_values(
                estadisticas_con(productos@, ordenes@, calificaciones@),
            ),
    {
        let cats = categorias_de(&productos);
        let mut r: Vec<EstadisticasCategoria> = Vec::new();
        let mut k: usize = 0;
        while k < cats.len()
            invariant
                0 <= k <= cats@.len(),
                cats@ == categorias(productos@),
                r@ == cats@.subrange(0, k as int).map_values(
                    estadisticas_con(productos@, ordenes@, calificaciones@),
                ),
            decreases cats@.len() - k,
        {
            let c = &cats[k];
            let calificacion = match buscar_calificacion(&calificaciones, c) {
                Some(j) => calificaciones[j].1,
                None => (0, 0),
            };
            r.push(estadisticas_de(&productos, &ordenes, c.clone(), calificacion));
            k = k + 1;
            assert(r@ =~= cats@.subrange(0, k as int).map_values(
                estadisticas_con(productos@, ordenes@, calificaciones@),
            ));
        }
        assert(cats@.subrange(0, k as int) =~= cats@);
        r
    }
}

// ---- best-selling listings ----

/// No listing id occurs twice in `v`.
pub open spec fn ids_unicos(v: Seq<(u32, u32)>) -> bool {
    forall|i: int, j: int| 0 <= i < v.len() && 0 <= j < v.len() && v[i].0 == v[j].0 ==> i == j
}

/// `v` with `cant` more units sold of listing `id` (saturating).
pub open spec fn sumar_venta(v: Seq<(u32, u32)>, id: u32, cant: u32) -> Seq<(u32, u32)> {
    if exists|k: int| 0 <= k < v.len() && v[k].0 == id {
        let k = choose|k: int| 0 <= k < v.len() && v[k].0 == id;
        v.update(k, (id, saturar(v[k].1 + cant)))
    } else {
        v.push((id, cant))
    }
}

/// Units sold per listing over the received orders of `ordenes`, listings
/// in order of their first received order.
pub open spec fn ventas(ordenes: Seq<(u32, Orden)>) -> Seq<(u32, u32)>
    decreases ordenes.len(),
{
    if ordenes.len() == 0 {
        Seq::empty()
    } else {
        let v = ventas(ordenes.drop_last());
        let o = ordenes.last().1;
        if o.estado is Recibido {
            sumar_venta(v, o.id_prod, o.cantidad)
        } else {
            v
        }
    }
}

/// The report entry of listing sales `e`, when the listing is known.
pub open spec fn vendido_en(productos: Seq<(u32, Producto)>) -> spec_fn((u32, u32)) -> Option<
    ProductoVendido,
> {
    |e: (u32, u32)|
        match primera(productos, con_id(e.0)) {
            Some(k) => Some(
                ProductoVendido {
                    id_producto: e.0,
                    nombre: productos[k].1.nombre,
                    categoria: productos[k].1.categoria,
                    vendedor: productos[k].1.vendedor,
                    unidades_vendidas: e.1,
                },
            ),
            None => None,
        }
}

pub open spec fn claves_ventas(v: Seq<(u32, u32)>) -> Seq<u64> {
    v.map_values(|e: (u32, u32)| e.1 as u64)
}

/// `r` is the report of the `limite` best-selling listings: sales sorted by
/// descending units (equal units keep their order), the first `limite`
/// taken, and those whose listing is unknown dropped.
pub open spec fn es_mas_vendidos(
    ordenes: Seq<(u32, Orden)>,
    productos: Seq<(u32, Producto)>,
    limite: u32,
    r: Seq<ProductoVendido>,
) -> bool {
    exists|p: Seq<usize>|
        orden_estable(claves_ventas(ventas(ordenes)), p) && r == primeros(
            reordenado(ventas(ordenes), p),
            limite,
        ).filter_map(vendido_en(productos))
}

fn contar_ventas(ordenes: &Vec<(u32, Orden)>) -> (r: Vec<(u32, u32)>)
    ensures
        r@ == ventas(ordenes@),
{
    let mut v: Vec<(u32, u32)> = Vec::new();
    let mut i: usize = 0;
    while i < ordenes.len()
        invariant
            0 <= i <= ordenes@.len(),
            v@ == ventas(ordenes@.subrange(0, i as int)),
            ids_unicos(v@),
        decreases ordenes@.len() - i,
    {
        let ghost t = ordenes@.subrange(0, i + 1);
        assert(t.drop_last() =~= ordenes@.subrange(0, i as int));
        assert(t.last() == ordenes@[i as int]);
        let orden = ordenes[i].1;
        if let Estado::Recibido = orden.estado {
            let mut k: usize = 0;
            while k < v.len() && v[k].0 != orden.id_prod
                invariant
                    0 <= k <= v@.len(),
                    forall|j: int| 0 <= j < k ==> (#[trigger] v@[j]).0 != orden.id_prod,
                decreases v@.len() - k,
            {
                k = k + 1;
            }
            if k < v.len() {
                let ghost kk = choose|j: int| 0 <= j < v@.len() && v@[j].0 == orden.id_prod;
                assert(v@[k as int].0 == orden.id_prod);
                assert(kk == k);
                let unidades = sumar_saturado(v[k].1, orden.cantidad);
                v.set(k, (orden.id_prod, unidades));
            } else {
                v.push((orden.id_prod, orden.cantidad));
            }
        }
        i = i + 1;
    }
    assert(ordenes@.subrange(0, i as int) =~= ordenes@);
    v
}

impl Reportes {
    /// The `limite` best-selling listings, by units in received orders.
    pub fn _procesar_productos_mas_vendidos(
        ordenes: Vec<(u32, Orden)>,
        productos: Vec<(u32, Producto)>,
        limite: u32,
    ) -> (r: Vec<ProductoVendido>)
        ensures
            es_mas_vendidos(ordenes@, productos@, limite, r@),
    {
        let v = contar_ventas(&ordenes);
        let mut claves: Vec<u64> = Vec::new();
        let mut i: usize = 0;
        while i < v.len()
            invariant
                0 <= i <= v@.len(),
                claves@ == claves_ventas(v@.subrange(0, i as int)),
            decreases v@.len() - i,
        {
            claves.push(v[i].1 as u64);
            i = i + 1;
            assert(claves@ =~= claves_ventas(v@.subrange(0, i as int)));
        }
        assert(v@.subrange(0, i as int) =~= v@);
        let p = ordenar_posiciones(&claves);
        let tope: usize = if (limite as usize) < p.len() {
            limite as usize
        } else {
            p.len()
        };
        let ghost orden = reordenado(v@, p@);
        let mut r: Vec<ProductoVendido> = Vec::new();
        let mut k: usize = 0;
        while k < tope
            invariant
                0 <= k <= tope <= p@.len(),
                orden_estable(claves@, p@),
                claves@.len() == v@.len(),
                orden == reordenado(v@, p@),
                r@ == orden.subrange(0, k as int).filter_map(vendido_en(productos@)),
            decreases tope - k,
        {
            proof {
                lema_filter_map_prefijo(orden, k as int, vendido_en(productos@));
            }
            let (id, unidades) = v[p[k]];
            if let Some(j) = buscar_producto(&productos, id) {
                let producto = &productos[j].1;
                r.push(
                    ProductoVendido {
                        id_producto: id,
                        nombre: producto.nombre.clone(),
                        categoria: producto.categoria.clone(),
                        vendedor: producto.vendedor,
                        unidades_vendidas: unidades,
                    },
                );
            }
            k = k + 1;
        }
        assert(orden.subrange(0, tope as int) =~= primeros(orden, limite));
        r
    }
}

// ---- reports on a marketplace ----

/// The listings of `m` with their ids, as the marketplace enumerates them.
pub open spec fn productos_listados(m: Modelo) -> Seq<(u32, Producto)> {
    m.productos.map(|i: int, p: Producto| ((i + 1) as u32, p))
}

/// The orders of `m` with their ids, as the marketplace enumerates them.
pub open spec fn ordenes_listadas(m: Modelo) -> Seq<(u32, Orden)> {
    m.ordenes.map(|i: int, o: Orden| ((i + 1) as u32, o))
}

pub open spec fn estadisticas_en(m: Modelo) -> spec_fn(String) -> EstadisticasCategoria {
    |c: String|
        estadisticas(productos_listados(m), ordenes_listadas(m), c, m.categoria_actual(c@))
}

fn productos_de(mp: &Marketplace) -> (r: Vec<(u32, Producto)>)
    requires
        mp.wf(),
    ensures
        r@ == productos_listados(mp@),
{
    let r = mp.listar_todos_productos();
    assert(r@ =~= productos_listados(mp@));
    r
}

fn ordenes_de(mp: &Marketplace) -> (r: Vec<(u32, Orden)>)
    requires
        mp.wf(),
    ensures
        r@ == ordenes_listadas(mp@),
{
    let r = mp.listar_todas_ordenes();
    assert(r@ =~= ordenes_listadas(mp@));
    r
}

impl Reportes {
    /// The best `limite` sellers of `mp`.
    pub fn top_vendedores(&self, mp: &Marketplace, limite: u32) -> (r: Vec<UsuarioConReputacion>)
        requires
            mp.wf(),
        ensures
            es_top(
                mp@.reputaciones.filter_map(|e: (AccountId, ReputacionUsuario)| como_vendedor(e)),
                limite,
                r@,
            ),
    {
        Self::_procesar_top_vendedores(mp.listar_todas_reputaciones(), limite)
    }

    /// The best `limite` buyers of `mp`.
    pub fn top_compradores(&self, mp: &Marketplace, limite: u32) -> (r: Vec<UsuarioConReputacion>)
        requires
            mp.wf(),
        ensures
            es_top(
                mp@.reputaciones.filter_map(|e: (AccountId, ReputacionUsuario)| como_comprador(e)),
                limite,
                r@,
            ),
    {
        Self::_procesar_top_compradores(mp.listar_todas_reputaciones(), limite)
    }

    /// The `limite` best-selling listings of `mp`.
    pub fn productos_mas_vendidos(&self, mp: &Marketplace, limite: u32) -> (r: Vec<ProductoVendido>)
        requires
            mp.wf(),
        ensures
            es_mas_vendidos(ordenes_listadas(mp@), productos_listados(mp@), limite, r@),
    {
        Self::_procesar_productos_mas_vendidos(ordenes_de(mp), productos_de(mp), limite)
    }

    /// The statistics of every category of `mp`, with its seller ratings.
    pub fn estadisticas_por_categoria(&self, mp: &Marketplace) -> (r: Vec<EstadisticasCategoria>)
        requires
            mp.wf(),
        ensures
            r@ == categorias(productos_listados(mp@)).map_values(estadisticas_en(mp@)),
    {
        let productos = productos_de(mp);
        let ordenes = ordenes_de(mp);
        let cats = categorias_de(&productos);
        let mut r: Vec<EstadisticasCategoria> = Vec::new();
        let mut k: usize = 0;
        while k < cats.len()
            invariant
                0 <= k <= cats@.len(),
                mp.wf(),
                productos@ == productos_listados(mp@),
                ordenes@ == ordenes_listadas(mp@),
                cats@ == categorias(productos_listados(mp@)),
                r@ == cats@.subrange(0, k as int).map_values(estadisticas_en(mp@)),
            decreases cats@.len() - k,
        {
            let c = cats[k].clone();
            let calificacion = match mp.obtener_calificacion_categoria(c.clone()) {
                Some(x) => x,
                None => (0, 0),
            };
            r.push(estadisticas_de(&productos, &ordenes, c, calificacion));
            k = k + 1;
            assert(r@ =~= cats@.subrange(0, k as int).map_values(estadisticas_en(mp@)));
        }
        assert(cats@.subrange(0, k as int) =~= cats@);
        r
    }

    /// The statistics of `categoria` in `mp`; refused when no listing has it.
    pub fn estadisticas_categoria(&self, mp: &Marketplace, categoria: String) -> (r: Result<
        EstadisticasCategoria,
        Error,
    >)
        requires
            mp.wf(),
        ensures
            r == if contar(productos_listados(mp@), de_categoria(categoria@)) == 0 {
                Err(Error::CategoriaNoEncontrada)
            } else {
                Ok::<EstadisticasCategoria, Error>(
                    estadisticas(
                        productos_listados(mp@),
                        ordenes_listadas(mp@),
                        categoria,
                        mp@.categoria_actual(categoria@),
                    ),
                )
            },
    {
        let calificacion = match mp.obtener_calificacion_categoria(categoria.clone()) {
            Some(x) => x,
            None => (0, 0),
        };
        Self::_procesar_estadisticas_categoria(productos_de(mp), ordenes_de(mp), categoria, calificacion)
    }

    /// The order counts of `usuario` in `mp`.
    pub fn ordenes_por_usuario(&self, mp: &Marketplace, usuario: AccountId) -> (r: OrdenesUsuario)
        requires
            mp.wf(),
        ensures
            r == resumen_usuario(ordenes_listadas(mp@), usuario),
    {
        Self::_procesar_ordenes_por_usuario(ordenes_de(mp), usuario)
    }

    /// The order counts of every registered participant of `mp` with at least
    /// one order, in order of registration.
    pub fn resumen_ordenes_todos_usuarios(&self, mp: &Marketplace) -> (r: Vec<OrdenesUsuario>)
        requires
            mp.wf(),
        ensures
            r@ == mp@.roles.map_values(|e: (AccountId, Rol)| e.0).filter_map(
                resumen_si_activo(ordenes_listadas(mp@)),
            ),
    {
        Self::_procesar_resumen_ordenes_todos_usuarios(mp.listar_usuarios(), ordenes_de(mp))
    }

    /// (participants, listings, orders, received orders) of `mp`.
    pub fn resumen_general(&self, mp: &Marketplace) -> (r: (u32, u32, u32, u32))
        requires
            mp.wf(),
        ensures
            r == (
                saturar(mp@.roles.len() as int),
                saturar(mp@.productos.len() as int),
                saturar(mp@.ordenes.len() as int),
                saturar(contar(ordenes_listadas(mp@), recibida())),
            ),
    {
        let usuarios = mp.listar_usuarios();
        let total_usuarios: u32 = if usuarios.len() >= u32::MAX as usize {
            u32::MAX
        } else {
            usuarios.len() as u32
        };
        Self::_procesar_resumen_general(total_usuarios, mp.get_total_productos(), ordenes_de(mp))
    }

    /// The categories of the listings of `mp`, each once.
    pub fn listar_categorias(&self, mp: &Marketplace) -> (r: Vec<String>)
        requires
            mp.wf(),
        ensures
            r@ == categorias(productos_listados(mp@)),
    {
        let productos = productos_de(mp);
        Self::_procesar_listar_categorias(&productos)
    }
}

} // verus!
