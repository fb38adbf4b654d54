use allocateur::monotone::{MonAllocateur, HEAP_SIZE};
use allocateur::{AllocateurListeLibre, BlocLibre, ALIGNEMENT_ENTETE, TAILLE_ENTETE};

#[test]
fn capacite_une_region() {
    let mut a = AllocateurListeLibre::new();
    a.initialisation(1000, 64);
    let r = a.allouer(40);
    assert_eq!(r, Some(1000));
    let p = r.unwrap();
    assert!(1000 <= p && p < 1064);
    assert_eq!(a.nombre_blocs(), 0);
}

#[test]
fn capacite_a_la_limite() {
    let mut a = AllocateurListeLibre::new();
    a.initialisation(1000, 64);
    let r = a.allouer(64 - TAILLE_ENTETE);
    assert_eq!(r, Some(1000));
}

#[test]
fn epuisement_puis_echec() {
    let mut a = AllocateurListeLibre::new();
    a.initialisation(1000, 64);
    assert_eq!(a.allouer(64), Some(1000));
    assert_eq!(a.nombre_blocs(), 0);
    assert_eq!(a.allouer(1), None);
    assert_eq!(a.nombre_blocs(), 0);
}

#[test]
fn aller_retour_meme_adresse() {
    let mut a = AllocateurListeLibre::new();
    a.initialisation(1000, 128);
    let p = a.allouer(40).unwrap();
    assert_eq!(p, 1000);
    a.liberer(p, 40);
    assert_eq!(a.allouer(40), Some(p));
    assert_eq!(a.nombre_blocs(), 0);
}

#[test]
fn premier_ajustement() {
    let mut a = AllocateurListeLibre::new();
    a.liberer(3000, 256);
    a.liberer(2000, 128);
    a.liberer(1000, 64);
    assert_eq!(a.nombre_blocs(), 3);
    assert_eq!(a.bloc(0), BlocLibre { addr: 1000, size: 64 });
    assert_eq!(a.bloc(1), BlocLibre { addr: 2000, size: 128 });
    assert_eq!(a.bloc(2), BlocLibre { addr: 3000, size: 256 });
    assert_eq!(a.allouer(100), Some(2000));
    assert_eq!(a.nombre_blocs(), 2);
    assert_eq!(a.bloc(0), BlocLibre { addr: 1000, size: 64 });
    assert_eq!(a.bloc(1), BlocLibre { addr: 3000, size: 256 });
}

#[test]
fn pas_de_fusion_de_voisins() {
    let mut a = AllocateurListeLibre::new();
    a.initialisation(1000, 64);
    a.initialisation(1064, 64);
    assert_eq!(a.nombre_blocs(), 2);
    assert_eq!(a.allouer(100), None);
    assert_eq!(a.nombre_blocs(), 2);
}

#[test]
fn region_sous_une_entete() {
    let mut a = AllocateurListeLibre::new();
    a.initialisation(1000, TAILLE_ENTETE - 1);
    assert_eq!(a.nombre_blocs(), 0);
    a.initialisation(1000, 0);
    assert_eq!(a.nombre_blocs(), 0);
}

#[test]
fn region_sous_le_saut() {
    let mut a = AllocateurListeLibre::new();
    a.initialisation(1003, 5);
    assert_eq!(a.nombre_blocs(), 0);
    a.initialisation(1003, 4);
    assert_eq!(a.nombre_blocs(), 0);
}

#[test]
fn alignement_d_une_region() {
    let mut a = AllocateurListeLibre::new();
    a.initialisation(1003, 500);
    assert_eq!(a.nombre_blocs(), 1);
    let b = a.bloc(0);
    assert_eq!(b, BlocLibre { addr: 1008, size: 495 });
    assert_eq!(b.addr % ALIGNEMENT_ENTETE, 0);
    assert_eq!(b.size, 500 - (b.addr - 1003));
}

#[test]
fn bloc_rendu_entier() {
    let mut a = AllocateurListeLibre::new();
    a.initialisation(1000, 256);
    assert_eq!(a.allouer(16), Some(1000));
    assert_eq!(a.nombre_blocs(), 0);
    a.liberer(1000, 16);
    assert_eq!(a.bloc(0), BlocLibre { addr: 1000, size: 16 });
}

#[test]
fn plusieurs_regions() {
    let mut a = AllocateurListeLibre::new();
    a.initialisation(1000, 64);
    a.initialisation(4096, 1024);
    assert_eq!(a.nombre_blocs(), 2);
    assert_eq!(a.allouer(512), Some(4096));
    assert_eq!(a.allouer(32), Some(1000));
    assert_eq!(a.allouer(1), None);
}

#[test]
fn monotone_avance_aligne() {
    let mut m = MonAllocateur::new();
    assert_eq!(m.allouer(100, 8), Some(0));
    assert_eq!(m.allouer(50, 8), Some(104));
    assert_eq!(m.allouer(5, 16), Some(160));
}

#[test]
fn monotone_sans_recuperation() {
    let mut m = MonAllocateur::new();
    assert_eq!(m.allouer(100, 1), Some(0));
    m.liberer(0, 100);
    assert_eq!(m.allouer(1, 1), Some(100));
}

#[test]
fn monotone_epuise() {
    let mut m = MonAllocateur::new();
    assert_eq!(m.allouer(HEAP_SIZE, 1), Some(0));
    assert_eq!(m.allouer(1, 1), None);
    assert_eq!(m.allouer(1, 1), None);
}
