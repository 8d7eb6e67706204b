//! The records that travel through the service, each with its mathematical
//! view: texts become `Seq<char>`, lists become `Seq`.

use vstd::prelude::*;

verus! {

/// A stop of the network, as the operator lists it. Two stops are the same
/// stop when their codes agree up to the case of ASCII letters.
#[derive(Debug, PartialEq, Eq)]
pub struct ArretNaolib {
    pub code_lieu: String,
    pub libelle: String,
}

/// View of an [`ArretNaolib`].
pub struct ArretVue {
    pub code_lieu: Seq<char>,
    pub libelle: Seq<char>,
}

impl DeepView for ArretNaolib {
    type V = ArretVue;

    open spec fn deep_view(&self) -> ArretVue {
        ArretVue { code_lieu: self.code_lieu@, libelle: self.libelle@ }
    }
}

impl View for ArretNaolib {
    type V = ArretVue;

    open spec fn view(&self) -> ArretVue {
        self.deep_view()
    }
}

impl Clone for ArretNaolib {
    fn clone(&self) -> (copie: Self)
        ensures
            copie@ == self@,
    {
        ArretNaolib { code_lieu: self.code_lieu.clone(), libelle: self.libelle.clone() }
    }
}

/// The line of a passage.
#[derive(Debug, PartialEq, Eq)]
pub struct LigneNaolib {
    pub num_ligne: String,
}

/// One upcoming departure at a stop. An empty `temps` marks a departure that
/// is cancelled or for which no wait is known.
#[derive(Debug, PartialEq, Eq)]
pub struct PassageNaolib {
    pub sens: u8,
    pub terminus: String,
    pub temps: String,
    pub ligne: LigneNaolib,
}

/// View of a [`PassageNaolib`]; `ligne` is the number of its line.
pub struct PassageVue {
    pub sens: u8,
    pub terminus: Seq<char>,
    pub temps: Seq<char>,
    pub ligne: Seq<char>,
}

impl DeepView for PassageNaolib {
    type V = PassageVue;

    open spec fn deep_view(&self) -> PassageVue {
        PassageVue {
            sens: self.sens,
            terminus: self.terminus@,
            temps: self.temps@,
            ligne: self.ligne.num_ligne@,
        }
    }
}

impl View for PassageNaolib {
    type V = PassageVue;

    open spec fn view(&self) -> PassageVue {
        self.deep_view()
    }
}

/// One frame of the display: an icon and a line of text.
#[derive(Debug, PartialEq, Eq)]
pub struct FrameLaMetric {
    pub icon: &'static str,
    pub text: String,
}

/// View of a [`FrameLaMetric`].
pub struct FrameVue {
    pub icon: Seq<char>,
    pub text: Seq<char>,
}

impl DeepView for FrameLaMetric {
    type V = FrameVue;

    open spec fn deep_view(&self) -> FrameVue {
        FrameVue { icon: self.icon@, text: self.text@ }
    }
}

impl View for FrameLaMetric {
    type V = FrameVue;

    open spec fn view(&self) -> FrameVue {
        self.deep_view()
    }
}

/// What the display is sent: its frames, in the order in which it shows them.
#[derive(Debug, PartialEq, Eq)]
pub struct ReponseLaMetric {
    pub frames: Vec<FrameLaMetric>,
}

impl DeepView for ReponseLaMetric {
    type V = Seq<FrameVue>;

    open spec fn deep_view(&self) -> Seq<FrameVue> {
        self.frames.deep_view()
    }
}

impl View for ReponseLaMetric {
    type V = Seq<FrameVue>;

    open spec fn view(&self) -> Seq<FrameVue> {
        self.deep_view()
    }
}

/// A failure while talking to the operator's service: the network, the
/// status of the answer or its body. `cause` is meant for a person.
#[derive(Debug, PartialEq, Eq)]
pub struct UpstreamError {
    pub cause: String,
}

} // verus!
