//! Lois generales de l'allocateur a liste libre, enoncees et prouvees
//! sur les fonctions de specification qui decrivent chaque operation.
//! Les contrats de `AllocateurListeLibre` rapportent chaque appel a ces
//! memes fonctions : ce qui est prouve ici vaut donc des suites
//! d'appels correspondantes.

use vstd::prelude::*;

use crate::{
    adresse_alignee, apres_ajout, apres_allocation, apres_liberation, existe_bloc,
    indice_premier, resultat_allocation, saut_alignement, taille_utile, BlocLibre,
    ALIGNEMENT_ENTETE, TAILLE_ENTETE,
};

verus! {

/// Capacite : sur un allocateur vide, l'enregistrement d'une region
/// assez grande pour une entete laisse reussir une allocation de `n`
/// octets des que `n` n'excede pas la taille de la region moins une
/// entete ; l'adresse rendue est l'adresse alignee, qui tombe dans la
/// region `[addr, addr + size)`.
pub proof fn lemme_capacite(addr: usize, size: usize, n: usize)
    requires
        addr + ALIGNEMENT_ENTETE - 1 <= usize::MAX,
        taille_utile(addr, size) >= TAILLE_ENTETE as int,
        n as int <= size - TAILLE_ENTETE as int,
    ensures
        ({
            let s = apres_ajout(Seq::<BlocLibre>::empty(), addr, size);
            existe_bloc(s, n as int) && resultat_allocation(s, n as int) == Some(
                adresse_alignee(addr) as usize,
            ) && addr <= adresse_alignee(addr) < addr + size
        }),
{
    let s = apres_ajout(Seq::<BlocLibre>::empty(), addr, size);
    assert(saut_alignement(addr) < TAILLE_ENTETE as int);
    assert(s[0].size >= n);
    assert(existe_bloc(s, n as int));
    assert(indice_premier(s, n as int) == 0);
}

/// Epuisement : une fois la liste videe par des allocations reussies,
/// toute allocation echoue — quel que soit `n` — et laisse la liste
/// vide.
pub proof fn lemme_epuisement(s: Seq<BlocLibre>, n: usize)
    requires
        s.len() == 0,
    ensures
        resultat_allocation(s, n as int) is None,
        apres_allocation(s, n as int) == s,
{
}

/// Aller-retour : quand une allocation de `n` octets rend l'adresse `p`,
/// liberer `(p, n)` puis allouer `n` octets a nouveau rend `p` et
/// ramene la liste a son etat d'entre les deux allocations — le bloc le
/// plus recemment libere, en tete, est reexamine et retenu en premier.
pub proof fn lemme_aller_retour(s: Seq<BlocLibre>, n: usize)
    requires
        existe_bloc(s, n as int),
    ensures
        ({
            let p = s[indice_premier(s, n as int)].addr;
            let s1 = apres_allocation(s, n as int);
            let s2 = apres_liberation(s1, p, n);
            resultat_allocation(s, n as int) == Some(p) && resultat_allocation(s2, n as int)
                == Some(p) && apres_allocation(s2, n as int) == s1
        }),
{
    let p = s[indice_premier(s, n as int)].addr;
    let s1 = apres_allocation(s, n as int);
    let b = BlocLibre { addr: p, size: n };
    let s2 = apres_liberation(s1, p, n);
    s1.insert_ensures(0, b);
    assert(s2[0] == b);
    assert(existe_bloc(s2, n as int));
    assert(indice_premier(s2, n as int) == 0);
    assert(s2.remove(0) =~= s1);
}

/// La liberation d'un bloc deja aligne et assez grand pour une entete
/// revient a enregistrer ce bloc comme une nouvelle region : meme
/// insertion en tete, sans octet saute.
pub proof fn lemme_liberation_est_ajout(s: Seq<BlocLibre>, ptr: usize, size: usize)
    requires
        (ptr as int) % (ALIGNEMENT_ENTETE as int) == 0,
        size >= TAILLE_ENTETE,
    ensures
        apres_liberation(s, ptr, size) == apres_ajout(s, ptr, size),
{
    assert(saut_alignement(ptr) == 0);
}

/// Region trop petite : l'enregistrement d'une region dont la taille
/// n'atteint pas une entete ne cree aucun bloc, la liste reste telle
/// quelle.
pub proof fn lemme_region_minuscule(s: Seq<BlocLibre>, addr: usize, size: usize)
    requires
        (size as int) < TAILLE_ENTETE as int,
    ensures
        apres_ajout(s, addr, size) == s,
{
    assert(taille_utile(addr, size) <= size as int);
}

/// Alignement d'une region retenue : le bloc cree commence a une
/// adresse multiple de `ALIGNEMENT_ENTETE`, au plus
/// `ALIGNEMENT_ENTETE - 1` octets apres `addr`, et sa taille est
/// reduite d'exactement le nombre d'octets sautes devant `addr` ; le
/// reste de la liste ne bouge pas.
pub proof fn lemme_alignement(s: Seq<BlocLibre>, addr: usize, size: usize)
    requires
        addr + ALIGNEMENT_ENTETE - 1 <= usize::MAX,
        taille_utile(addr, size) >= TAILLE_ENTETE as int,
    ensures
        ({
            let s2 = apres_ajout(s, addr, size);
            let b = s2[0];
            s2.len() == s.len() + 1 && s2 == s.insert(0, b) && (b.addr as int) % (
            ALIGNEMENT_ENTETE as int) == 0 && addr <= b.addr < addr + ALIGNEMENT_ENTETE
                && b.size as int == size - (b.addr - addr)
        }),
{
    let b = BlocLibre {
        addr: adresse_alignee(addr) as usize,
        size: taille_utile(addr, size) as usize,
    };
    s.insert_ensures(0, b);
    assert((adresse_alignee(addr)) % (ALIGNEMENT_ENTETE as int) == 0);
}

} // verus!
