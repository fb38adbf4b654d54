//! Allocateur a liste libre : une liste chainee de blocs de memoire
//! recuperables, avec enregistrement de regions, allocation par premier
//! ajustement et liberation par insertion en tete.
//!
//! La liste est modelisee par la suite de ses noeuds, tete en premier :
//! chaque noeud decrit un bloc libre par son adresse de depart et sa
//! taille totale en octets (entete comprise). Les adresses sont des
//! valeurs simples : l'ecriture effective des entetes dans la memoire
//! geree revient a l'environnement qui integre l'allocateur.

use vstd::prelude::*;

pub mod lois;
pub mod monotone;

verus! {

/// Taille en octets de l'entete ecrite au debut de chaque bloc libre :
/// un champ de taille et un lien vers le bloc suivant, huit octets
/// chacun sur une cible 64 bits.
pub const TAILLE_ENTETE: usize = 16;

/// Alignement requis pour l'adresse d'une entete de bloc libre.
pub const ALIGNEMENT_ENTETE: usize = 8;

/// Un bloc libre : son adresse de depart et sa taille totale en octets,
/// entete comprise.
#[derive(Clone, Copy, PartialEq, Eq, Structural, Debug)]
pub struct BlocLibre {
    pub addr: usize,
    pub size: usize,
}

/// Nombre d'octets sautes devant `addr` pour atteindre la prochaine
/// adresse multiple de `ALIGNEMENT_ENTETE`.
pub open spec fn saut_alignement(addr: usize) -> int {
    if (addr as int) % (ALIGNEMENT_ENTETE as int) == 0 {
        0
    } else {
        (ALIGNEMENT_ENTETE as int) - (addr as int) % (ALIGNEMENT_ENTETE as int)
    }
}

/// Premiere adresse >= `addr` multiple de `ALIGNEMENT_ENTETE`.
pub open spec fn adresse_alignee(addr: usize) -> int {
    addr + saut_alignement(addr)
}

/// Taille restante d'une region apres l'alignement de son adresse de
/// depart ; negative quand la region ne couvre meme pas le saut.
pub open spec fn taille_utile(addr: usize, size: usize) -> int {
    size - saut_alignement(addr)
}

/// Etat de la liste apres l'enregistrement de la region `[addr, addr + size)` :
/// un bloc aligne est insere en tete quand la taille utile atteint une
/// entete, sinon la region est abandonnee et la liste reste telle quelle.
pub open spec fn apres_ajout(s: Seq<BlocLibre>, addr: usize, size: usize) -> Seq<BlocLibre> {
    if taille_utile(addr, size) >= TAILLE_ENTETE as int {
        s.insert(
            0,
            BlocLibre {
                addr: adresse_alignee(addr) as usize,
                size: taille_utile(addr, size) as usize,
            },
        )
    } else {
        s
    }
}

/// Vrai quand la liste contient au moins un bloc de taille >= `size`.
pub open spec fn existe_bloc(s: Seq<BlocLibre>, size: int) -> bool {
    exists|i: int| 0 <= i < s.len() && s[i].size >= size
}

/// Indice du premier bloc de taille >= `size` dans l'ordre de la liste,
/// ou -1 quand aucun bloc ne convient.
pub open spec fn indice_premier(s: Seq<BlocLibre>, size: int) -> int
    decreases s.len(),
{
    if s.len() == 0 {
        -1
    } else if s[0].size >= size {
        0
    } else {
        let r = indice_premier(s.drop_first(), size);
        if r == -1 {
            -1
        } else {
            r + 1
        }
    }
}

/// Resultat d'une allocation de `size` octets sur l'etat `s` : l'adresse
/// du premier bloc assez grand, ou rien quand la liste n'en offre aucun.
pub open spec fn resultat_allocation(s: Seq<BlocLibre>, size: int) -> Option<usize> {
    if existe_bloc(s, size) {
        Some(s[indice_premier(s, size)].addr)
    } else {
        None
    }
}

/// Etat de la liste apres une allocation de `size` octets : le premier
/// bloc assez grand est retire entier, sans decoupe de l'excedent ;
/// sans bloc assez grand, la liste reste telle quelle.
pub open spec fn apres_allocation(s: Seq<BlocLibre>, size: int) -> Seq<BlocLibre> {
    if existe_bloc(s, size) {
        s.remove(indice_premier(s, size))
    } else {
        s
    }
}

/// Etat de la liste apres la liberation du bloc `[ptr, ptr + size)` :
/// insertion en tete, sans reajustement d'alignement ni fusion avec un
/// bloc voisin.
pub open spec fn apres_liberation(s: Seq<BlocLibre>, ptr: usize, size: usize) -> Seq<BlocLibre> {
    s.insert(0, BlocLibre { addr: ptr, size })
}

/// Lien entre `existe_bloc` et `indice_premier` : quand au moins un bloc
/// convient, l'indice designe le premier d'entre eux dans l'ordre de la
/// liste ; sinon l'indice vaut -1.
pub proof fn lemme_indice_premier(s: Seq<BlocLibre>, size: int)
    ensures
        existe_bloc(s, size) <==> 0 <= indice_premier(s, size) < s.len(),
        !existe_bloc(s, size) ==> indice_premier(s, size) == -1,
        existe_bloc(s, size) ==> s[indice_premier(s, size)].size >= size,
        forall|j: int| 0 <= j < indice_premier(s, size) ==> s[j].size < size,
    decreases s.len(),
{
    if s.len() == 0 {
    } else if s[0].size >= size {
    } else {
        let reste = s.drop_first();
        lemme_indice_premier(reste, size);
        if existe_bloc(reste, size) {
            let i = choose|i: int| 0 <= i < reste.len() && reste[i].size >= size;
            assert(s[i + 1] == reste[i]);
            assert(existe_bloc(s, size));
        }
        if existe_bloc(s, size) {
            let i = choose|i: int| 0 <= i < s.len() && s[i].size >= size;
            assert(reste[i - 1] == s[i]);
            assert(existe_bloc(reste, size));
        }
        assert forall|j: int| 0 <= j < indice_premier(s, size) implies s[j].size < size by {
            if j > 0 {
                assert(reste[j - 1] == s[j]);
            }
        }
    }
}

/// Le premier bloc assez grand est a l'indice `i` des que `s[i]` convient
/// et qu'aucun bloc avant lui ne convient.
pub proof fn lemme_indice_premier_exact(s: Seq<BlocLibre>, size: int, i: int)
    requires
        0 <= i < s.len(),
        s[i].size >= size,
        forall|j: int| 0 <= j < i ==> s[j].size < size,
    ensures
        indice_premier(s, size) == i,
        existe_bloc(s, size),
    decreases i,
{
    assert(existe_bloc(s, size));
    if i > 0 {
        let reste = s.drop_first();
        assert(reste[i - 1] == s[i]);
        assert forall|j: int| 0 <= j < i - 1 implies reste[j].size < size by {
            assert(reste[j] == s[j + 1]);
        }
        lemme_indice_premier_exact(reste, size, i - 1);
    }
}

/// L'allocateur a liste libre : il detient la chaine des blocs libres,
/// tete en premier. Une seule suite d'appels a la fois : le type n'offre
/// aucune exclusion mutuelle interne.
pub struct AllocateurListeLibre {
    liste: Vec<BlocLibre>,
}

impl View for AllocateurListeLibre {
    type V = Seq<BlocLibre>;

    closed spec fn view(&self) -> Seq<BlocLibre> {
        self.liste@
    }
}

impl AllocateurListeLibre {
    /// Cree un allocateur dont la liste des blocs libres est vide.
    pub fn new() -> (r: Self)
        ensures
            r@ == Seq::<BlocLibre>::empty(),
    {
        AllocateurListeLibre { liste: Vec::new() }
    }

    /// Enregistre la region `[heap_start, heap_start + heap_size)` comme
    /// memoire libre. A appeler une fois par region, avant toute
    /// allocation ; plusieurs regions disjointes peuvent etre ajoutees
    /// tour a tour a la meme liste.
    pub fn initialisation(&mut self, heap_start: usize, heap_size: usize)
        requires
            heap_start + ALIGNEMENT_ENTETE - 1 <= usize::MAX,
        ensures
            final(self)@ == apres_ajout(old(self)@, heap_start, heap_size),
    {
        self.ajout_region_libre(heap_start, heap_size);
    }

    /// Aligne l'adresse de la region, reduit sa taille du nombre
    /// d'octets sautes, puis insere un bloc en tete de liste ; une
    /// region dont la taille utile n'atteint pas une entete est
    /// abandonnee en silence.
    fn ajout_region_libre(&mut self, addr: usize, size: usize)
        requires
            addr + ALIGNEMENT_ENTETE - 1 <= usize::MAX,
        ensures
            final(self)@ == apres_ajout(old(self)@, addr, size),
    {
        let reste = addr % ALIGNEMENT_ENTETE;
        let aligned_addr = if reste == 0 {
            addr
        } else {
            addr + (ALIGNEMENT_ENTETE - reste)
        };
        let saut = aligned_addr - addr;
        if size < saut {
            return;
        }
        let size = size - saut;
        if size < TAILLE_ENTETE {
            return;
        }
        self.liste.insert(0, BlocLibre { addr: aligned_addr, size });
    }

    /// Alloue `size` octets par premier ajustement : parcourt la liste
    /// depuis la tete et retire entier le premier bloc de taille
    /// suffisante — l'excedent n'est pas decoupe — puis rend son
    /// adresse. Rend rien quand aucun bloc ne suffit : le signal de
    /// memoire epuisee, laisse au soin de l'appelant.
    pub fn allouer(&mut self, size: usize) -> (r: Option<usize>)
        ensures
            r == resultat_allocation(old(self)@, size as int),
            final(self)@ == apres_allocation(old(self)@, size as int),
    {
        let mut i: usize = 0;
        while i < self.liste.len()
            invariant
                self@ == old(self)@,
                i <= self@.len(),
                forall|j: int| 0 <= j < i ==> self@[j].size < size,
            decreases self@.len() - i,
        {
            if self.liste[i].size >= size {
                proof {
                    lemme_indice_premier_exact(self@, size as int, i as int);
                }
                let a = self.liste[i].addr;
                self.liste.remove(i);
                return Some(a);
            }
            i += 1;
        }
        proof {
            lemme_indice_premier(self@, size as int);
        }
        None
    }

    /// Libere le bloc `[ptr, ptr + size)` : il redevient un bloc libre
    /// insere en tete de liste, sans fusion avec un voisin. `ptr` doit
    /// etre une adresse rendue par `allouer` et non encore liberee, et
    /// `size` la taille demandee a l'origine : l'allocateur ne verifie
    /// rien et une violation corrompt la comptabilite de la liste.
    pub fn liberer(&mut self, ptr: usize, size: usize)
        ensures
            final(self)@ == apres_liberation(old(self)@, ptr, size),
    {
        self.liste.insert(0, BlocLibre { addr: ptr, size });
    }

    /// Nombre de blocs actuellement dans la liste libre.
    pub fn nombre_blocs(&self) -> (n: usize)
        ensures
            n == self@.len(),
    {
        self.liste.len()
    }

    /// Le bloc au rang `i` de la liste, la tete au rang 0.
    pub fn bloc(&self, i: usize) -> (b: BlocLibre)
        requires
            i < self@.len(),
        ensures
            b == self@[i as int],
    {
        self.liste[i]
    }
}

} // verus!
