//! Allocateur monotone : un simple pointeur d'avancement dans un tas de
//! taille fixe. Il aligne chaque debut d'allocation et ne recupere
//! jamais la memoire liberee — un contrepoint a l'allocateur a liste
//! libre, garde pour les environnements qui n'ont pas besoin de
//! liberation.

use vstd::prelude::*;

verus! {

/// Taille du tas fixe que l'allocateur monotone parcourt, en octets.
pub const HEAP_SIZE: usize = 1024 * 1024;

/// Position dans `[0, HEAP_SIZE]` une fois `pos` avance jusqu'au
/// prochain multiple de `align`.
pub open spec fn position_alignee(pos: int, align: int) -> int {
    if pos % align == 0 {
        pos
    } else {
        pos + (align - pos % align)
    }
}

/// L'allocateur monotone : `next` est le decalage, dans le tas, du
/// premier octet encore jamais distribue.
pub struct MonAllocateur {
    next: usize,
}

impl MonAllocateur {
    /// Decalage du premier octet encore jamais distribue.
    pub closed spec fn position(&self) -> int {
        self.next as int
    }

    /// L'allocateur n'a jamais distribue au-dela du tas.
    pub open spec fn bien_forme(&self) -> bool {
        self.position() <= HEAP_SIZE as int
    }

    /// Cree un allocateur monotone au debut de son tas.
    pub fn new() -> (r: Self)
        ensures
            r.position() == 0,
            r.bien_forme(),
    {
        MonAllocateur { next: 0 }
    }

    /// Distribue `size` octets alignes sur `align` : rend le decalage du
    /// debut de l'allocation dans le tas, ou rien quand le tas ne peut
    /// plus la contenir. La memoire distribuee ne revient jamais.
    pub fn allouer(&mut self, size: usize, align: usize) -> (r: Option<usize>)
        requires
            align >= 1,
            old(self).bien_forme(),
        ensures
            final(self).bien_forme(),
            ({
                let debut = position_alignee(old(self).position(), align as int);
                if debut + size <= HEAP_SIZE as int {
                    r == Some(debut as usize) && final(self).position() == debut + size
                } else {
                    r is None && final(self).position() == old(self).position()
                }
            }),
    {
        let start = self.next;
        let offset = start % align;
        let pad = if offset != 0 {
            align - offset
        } else {
            0
        };
        if pad > HEAP_SIZE - start {
            return None;
        }
        let debut = start + pad;
        if size > HEAP_SIZE - debut {
            return None;
        }
        self.next = debut + size;
        Some(debut)
    }

    /// Ne fait rien : l'allocateur monotone ne recupere jamais un bloc
    /// libere.
    pub fn liberer(&mut self, _ptr: usize, _size: usize)
        ensures
            final(self).position() == old(self).position(),
    {
    }
}

} // verus!
