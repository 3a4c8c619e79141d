//! The decisions of a validation run that do not touch the outside world: which
//! revision a benchmark project is validated at, how many findings are sampled,
//! what text a finding is handed on as, and where the judgments are written.

use rand::seq::SliceRandom;
use vstd::prelude::*;
use crate::text::{join, seq_join};

verus! {

/// The largest number of findings that one run samples.
pub const MAX_SAMPLE: usize = 300;

/// The revision at which each benchmark project is validated, by the basename of
/// its checkout; none for a project outside the benchmark.
pub open spec fn spec_commit_for_repo(name: Seq<char>) -> Option<Seq<char>> {
    if name == "OpenOLAT"@ {
        Some("df53b85db5c27935e7467b9d39eaac7aebf50d4a"@)
    } else if name == "spark"@ {
        Some("1973e402f5d4c1442ad34a1d38ed0758079f7773"@)
    } else if name == "DSpace"@ {
        Some("3b248012147da7cac7ac0fcd0b6b9ee0b07b5088"@)
    } else if name == "xstream"@ {
        Some("a22d3af9e3938fcf33bff620fd08669993e203cf"@)
    } else if name == "workflow-cps-plugin"@ {
        Some("e4b9517bd855657c900bd1b31cde09748c7a19a7"@)
    } else if name == "tika"@ {
        Some("2b38ed18fa6df22a425cd96f2431b3a574044533"@)
    } else if name == "xwiki-platform"@ {
        Some("fc734981c142b35c0ce97d0af7d29c904794ba46"@)
    } else if name == "jenkins"@ {
        Some("69d5a542391a0dc5c1b2ed609447bc863e7e892d"@)
    } else if name == "keycloak"@ {
        Some("4f55b9b6bd6dadfdd04cfd09eb532dfdd26d5607"@)
    } else if name == "onedev"@ {
        Some("b8a4d7cdc212a488fd732a675f3d6f7fc755f5a3"@)
    } else if name == "activemq"@ {
        Some("56ea235e6e481f7408f09101dec7ae77edb40ed1"@)
    } else if name == "cron-utils"@ {
        Some("bac6e866caf5f53d695a9513fc1b938b8064eaeb"@)
    } else if name == "sql2o"@ {
        Some("744b85b32bcea972c8d570483e1051cd0a25f0ba"@)
    } else if name == "RxJava"@ {
        Some("f07765edac25ccc110802add8a879d77208f09b9"@)
    } else if name == "jsoup"@ {
        Some("acafbcf3cb71ea0a04188c8f6257e3d395fa7c36"@)
    } else if name == "linux"@ {
        Some("6093a688a07da07808f0122f9aa2a3eed250d853"@)
    } else if name == "ImageMagick"@ {
        Some("3bf1076d748a5ec40073685ce71ca9222cf0b00c"@)
    } else if name == "vim"@ {
        Some("8feaa94e774cd92039f5e35901a1340ac132163f"@)
    } else if name == "gpac"@ {
        Some("c6a72c35aadadd9755d177c5ffc51b3e2b5f9268"@)
    } else if name == "bitlbee"@ {
        Some("8af06ca5362445ff6379aca028b79c607ed77f90"@)
    } else {
        None
    }
}

/// The revision recorded for each benchmark project, by the basename of its checkout.
pub proof fn law_benchmark_revisions()
    ensures
        spec_commit_for_repo("OpenOLAT"@) == Some("df53b85db5c27935e7467b9d39eaac7aebf50d4a"@),
        spec_commit_for_repo("spark"@) == Some("1973e402f5d4c1442ad34a1d38ed0758079f7773"@),
        spec_commit_for_repo("DSpace"@) == Some("3b248012147da7cac7ac0fcd0b6b9ee0b07b5088"@),
        spec_commit_for_repo("xstream"@) == Some("a22d3af9e3938fcf33bff620fd08669993e203cf"@),
        spec_commit_for_repo("workflow-cps-plugin"@) == Some("e4b9517bd855657c900bd1b31cde09748c7a19a7"@),
        spec_commit_for_repo("tika"@) == Some("2b38ed18fa6df22a425cd96f2431b3a574044533"@),
        spec_commit_for_repo("xwiki-platform"@) == Some("fc734981c142b35c0ce97d0af7d29c904794ba46"@),
        spec_commit_for_repo("jenkins"@) == Some("69d5a542391a0dc5c1b2ed609447bc863e7e892d"@),
        spec_commit_for_repo("keycloak"@) == Some("4f55b9b6bd6dadfdd04cfd09eb532dfdd26d5607"@),
        spec_commit_for_repo("onedev"@) == Some("b8a4d7cdc212a488fd732a675f3d6f7fc755f5a3"@),
        spec_commit_for_repo("activemq"@) == Some("56ea235e6e481f7408f09101dec7ae77edb40ed1"@),
        spec_commit_for_repo("cron-utils"@) == Some("bac6e866caf5f53d695a9513fc1b938b8064eaeb"@),
        spec_commit_for_repo("sql2o"@) == Some("744b85b32bcea972c8d570483e1051cd0a25f0ba"@),
        spec_commit_for_repo("RxJava"@) == Some("f07765edac25ccc110802add8a879d77208f09b9"@),
        spec_commit_for_repo("jsoup"@) == Some("acafbcf3cb71ea0a04188c8f6257e3d395fa7c36"@),
        spec_commit_for_repo("linux"@) == Some("6093a688a07da07808f0122f9aa2a3eed250d853"@),
        spec_commit_for_repo("ImageMagick"@) == Some("3bf1076d748a5ec40073685ce71ca9222cf0b00c"@),
        spec_commit_for_repo("vim"@) == Some("8feaa94e774cd92039f5e35901a1340ac132163f"@),
        spec_commit_for_repo("gpac"@) == Some("c6a72c35aadadd9755d177c5ffc51b3e2b5f9268"@),
        spec_commit_for_repo("bitlbee"@) == Some("8af06ca5362445ff6379aca028b79c607ed77f90"@),
{
    assert(spec_commit_for_repo("OpenOLAT"@) == Some("df53b85db5c27935e7467b9d39eaac7aebf50d4a"@)) by {
        reveal_strlit("OpenOLAT");
        assert("OpenOLAT"@.len() == 8);
    }
    assert(spec_commit_for_repo("spark"@) == Some("1973e402f5d4c1442ad34a1d38ed0758079f7773"@)) by {
        reveal_strlit("OpenOLAT");
        reveal_strlit("spark");
        assert("OpenOLAT"@.len() == 8);
        assert("spark"@.len() == 5);
    }
    assert(spec_commit_for_repo("DSpace"@) == Some("3b248012147da7cac7ac0fcd0b6b9ee0b07b5088"@)) by {
        reveal_strlit("OpenOLAT");
        reveal_strlit("spark");
        reveal_strlit("DSpace");
        assert("OpenOLAT"@.len() == 8);
        assert("spark"@.len() == 5);
        assert("DSpace"@.len() == 6);
    }
    assert(spec_commit_for_repo("xstream"@) == Some("a22d3af9e3938fcf33bff620fd08669993e203cf"@)) by {
        reveal_strlit("OpenOLAT");
        reveal_strlit("spark");
        reveal_strlit("DSpace");
        reveal_strlit("xstream");
        assert("OpenOLAT"@.len() == 8);
        assert("spark"@.len() == 5);
        assert("DSpace"@.len() == 6);
        assert("xstream"@.len() == 7);
    }
    assert(spec_commit_for_repo("workflow-cps-plugin"@) == Some("e4b9517bd855657c900bd1b31cde09748c7a19a7"@)) by {
        reveal_strlit("OpenOLAT");
        reveal_strlit("spark");
        reveal_strlit("DSpace");
        reveal_strlit("xstream");
        reveal_strlit("workflow-cps-plugin");
        assert("OpenOLAT"@.len() == 8);
        assert("spark"@.len() == 5);
        assert("DSpace"@.len() == 6);
        assert("xstream"@.len() == 7);
        assert("workflow-cps-plugin"@.len() == 19);
    }
    assert(spec_commit_for_repo("tika"@) == Some("2b38ed18fa6df22a425cd96f2431b3a574044533"@)) by {
        reveal_strlit("OpenOLAT");
        reveal_strlit("spark");
        reveal_strlit("DSpace");
        reveal_strlit("xstream");
        reveal_strlit("workflow-cps-plugin");
        reveal_strlit("tika");
        assert("OpenOLAT"@.len() == 8);
        assert("spark"@.len() == 5);
        assert("DSpace"@.len() == 6);
        assert("xstream"@.len() == 7);
        assert("workflow-cps-plugin"@.len() == 19);
        assert("tika"@.len() == 4);
    }
    assert(spec_commit_for_repo("xwiki-platform"@) == Some("fc734981c142b35c0ce97d0af7d29c904794ba46"@)) by {
        reveal_strlit("OpenOLAT");
        reveal_strlit("spark");
        reveal_strlit("DSpace");
        reveal_strlit("xstream");
        reveal_strlit("workflow-cps-plugin");
        reveal_strlit("tika");
        reveal_strlit("xwiki-platform");
        assert("OpenOLAT"@.len() == 8);
        assert("spark"@.len() == 5);
        assert("DSpace"@.len() == 6);
        assert("xstream"@.len() == 7);
        assert("workflow-cps-plugin"@.len() == 19);
        assert("tika"@.len() == 4);
        assert("xwiki-platform"@.len() == 14);
    }
    assert(spec_commit_for_repo("jenkins"@) == Some("69d5a542391a0dc5c1b2ed609447bc863e7e892d"@)) by {
        reveal_strlit("OpenOLAT");
        reveal_strlit("spark");
        reveal_strlit("DSpace");
        reveal_strlit("xstream");
        reveal_strlit("workflow-cps-plugin");
        reveal_strlit("tika");
        reveal_strlit("xwiki-platform");
        reveal_strlit("jenkins");
        assert("OpenOLAT"@.len() == 8);
        assert("spark"@.len() == 5);
        assert("DSpace"@.len() == 6);
        assert("xstream"@.len() == 7);
        assert("workflow-cps-plugin"@.len() == 19);
        assert("tika"@.len() == 4);
        assert("xwiki-platform"@.len() == 14);
        assert("jenkins"@.len() == 7);
        assert("jenkins"@[0] == 'j' && "xstream"@[0] == 'x');
    }
    assert(spec_commit_for_repo("keycloak"@) == Some("4f55b9b6bd6dadfdd04cfd09eb532dfdd26d5607"@)) by {
        reveal_strlit("OpenOLAT");
        reveal_strlit("spark");
        reveal_strlit("DSpace");
        reveal_strlit("xstream");
        reveal_strlit("workflow-cps-plugin");
        reveal_strlit("tika");
        reveal_strlit("xwiki-platform");
        reveal_strlit("jenkins");
        reveal_strlit("keycloak");
        assert("OpenOLAT"@.len() == 8);
        assert("spark"@.len() == 5);
        assert("DSpace"@.len() == 6);
        assert("xstream"@.len() == 7);
        assert("workflow-cps-plugin"@.len() == 19);
        assert("tika"@.len() == 4);
        assert("xwiki-platform"@.len() == 14);
        assert("jenkins"@.len() == 7);
        assert("keycloak"@.len() == 8);
        assert("keycloak"@[0] == 'k' && "OpenOLAT"@[0] == 'O');
    }
    assert(spec_commit_for_repo("onedev"@) == Some("b8a4d7cdc212a488fd732a675f3d6f7fc755f5a3"@)) by {
        reveal_strlit("OpenOLAT");
        reveal_strlit("spark");
        reveal_strlit("DSpace");
        reveal_strlit("xstream");
        reveal_strlit("workflow-cps-plugin");
        reveal_strlit("tika");
        reveal_strlit("xwiki-platform");
        reveal_strlit("jenkins");
        reveal_strlit("keycloak");
        reveal_strlit("onedev");
        assert("OpenOLAT"@.len() == 8);
        assert("spark"@.len() == 5);
        assert("DSpace"@.len() == 6);
        assert("xstream"@.len() == 7);
        assert("workflow-cps-plugin"@.len() == 19);
        assert("tika"@.len() == 4);
        assert("xwiki-platform"@.len() == 14);
        assert("jenkins"@.len() == 7);
        assert("keycloak"@.len() == 8);
        assert("onedev"@.len() == 6);
        assert("onedev"@[0] == 'o' && "DSpace"@[0] == 'D');
    }
    assert(spec_commit_for_repo("activemq"@) == Some("56ea235e6e481f7408f09101dec7ae77edb40ed1"@)) by {
        reveal_strlit("OpenOLAT");
        reveal_strlit("spark");
        reveal_strlit("DSpace");
        reveal_strlit("xstream");
        reveal_strlit("workflow-cps-plugin");
        reveal_strlit("tika");
        reveal_strlit("xwiki-platform");
        reveal_strlit("jenkins");
        reveal_strlit("keycloak");
        reveal_strlit("onedev");
        reveal_strlit("activemq");
        assert("OpenOLAT"@.len() == 8);
        assert("spark"@.len() == 5);
        assert("DSpace"@.len() == 6);
        assert("xstream"@.len() == 7);
        assert("workflow-cps-plugin"@.len() == 19);
        assert("tika"@.len() == 4);
        assert("xwiki-platform"@.len() == 14);
        assert("jenkins"@.len() == 7);
        assert("keycloak"@.len() == 8);
        assert("onedev"@.len() == 6);
        assert("activemq"@.len() == 8);
        assert("activemq"@[0] == 'a' && "OpenOLAT"@[0] == 'O');
        assert("activemq"@[0] == 'a' && "keycloak"@[0] == 'k');
    }
    assert(spec_commit_for_repo("cron-utils"@) == Some("bac6e866caf5f53d695a9513fc1b938b8064eaeb"@)) by {
        reveal_strlit("OpenOLAT");
        reveal_strlit("spark");
        reveal_strlit("DSpace");
        reveal_strlit("xstream");
        reveal_strlit("workflow-cps-plugin");
        reveal_strlit("tika");
        reveal_strlit("xwiki-platform");
        reveal_strlit("jenkins");
        reveal_strlit("keycloak");
        reveal_strlit("onedev");
        reveal_strlit("activemq");
        reveal_strlit("cron-utils");
        assert("OpenOLAT"@.len() == 8);
        assert("spark"@.len() == 5);
        assert("DSpace"@.len() == 6);
        assert("xstream"@.len() == 7);
        assert("workflow-cps-plugin"@.len() == 19);
        assert("tika"@.len() == 4);
        assert("xwiki-platform"@.len() == 14);
        assert("jenkins"@.len() == 7);
        assert("keycloak"@.len() == 8);
        assert("onedev"@.len() == 6);
        assert("activemq"@.len() == 8);
        assert("cron-utils"@.len() == 10);
    }
    assert(spec_commit_for_repo("sql2o"@) == Some("744b85b32bcea972c8d570483e1051cd0a25f0ba"@)) by {
        reveal_strlit("OpenOLAT");
        reveal_strlit("spark");
        reveal_strlit("DSpace");
        reveal_strlit("xstream");
        reveal_strlit("workflow-cps-plugin");
        reveal_strlit("tika");
        reveal_strlit("xwiki-platform");
        reveal_strlit("jenkins");
        reveal_strlit("keycloak");
        reveal_strlit("onedev");
        reveal_strlit("activemq");
        reveal_strlit("cron-utils");
        reveal_strlit("sql2o");
        assert("OpenOLAT"@.len() == 8);
        assert("spark"@.len() == 5);
        assert("DSpace"@.len() == 6);
        assert("xstream"@.len() == 7);
        assert("workflow-cps-plugin"@.len() == 19);
        assert("tika"@.len() == 4);
        assert("xwiki-platform"@.len() == 14);
        assert("jenkins"@.len() == 7);
        assert("keycloak"@.len() == 8);
        assert("onedev"@.len() == 6);
        assert("activemq"@.len() == 8);
        assert("cron-utils"@.len() == 10);
        assert("sql2o"@.len() == 5);
        assert("sql2o"@[1] == 'q' && "spark"@[1] == 'p');
    }
    assert(spec_commit_for_repo("RxJava"@) == Some("f07765edac25ccc110802add8a879d77208f09b9"@)) by {
        reveal_strlit("OpenOLAT");
        reveal_strlit("spark");
        reveal_strlit("DSpace");
        reveal_strlit("xstream");
        reveal_strlit("workflow-cps-plugin");
        reveal_strlit("tika");
        reveal_strlit("xwiki-platform");
        reveal_strlit("jenkins");
        reveal_strlit("keycloak");
        reveal_strlit("onedev");
        reveal_strlit("activemq");
        reveal_strlit("cron-utils");
        reveal_strlit("sql2o");
        reveal_strlit("RxJava");
        assert("OpenOLAT"@.len() == 8);
        assert("spark"@.len() == 5);
        assert("DSpace"@.len() == 6);
        assert("xstream"@.len() == 7);
        assert("workflow-cps-plugin"@.len() == 19);
        assert("tika"@.len() == 4);
        assert("xwiki-platform"@.len() == 14);
        assert("jenkins"@.len() == 7);
        assert("keycloak"@.len() == 8);
        assert("onedev"@.len() == 6);
        assert("activemq"@.len() == 8);
        assert("cron-utils"@.len() == 10);
        assert("sql2o"@.len() == 5);
        assert("RxJava"@.len() == 6);
        assert("RxJava"@[0] == 'R' && "DSpace"@[0] == 'D');
        assert("RxJava"@[0] == 'R' && "onedev"@[0] == 'o');
    }
    assert(spec_commit_for_repo("jsoup"@) == Some("acafbcf3cb71ea0a04188c8f6257e3d395fa7c36"@)) by {
        reveal_strlit("OpenOLAT");
        reveal_strlit("spark");
        reveal_strlit("DSpace");
        reveal_strlit("xstream");
        reveal_strlit("workflow-cps-plugin");
        reveal_strlit("tika");
        reveal_strlit("xwiki-platform");
        reveal_strlit("jenkins");
        reveal_strlit("keycloak");
        reveal_strlit("onedev");
        reveal_strlit("activemq");
        reveal_strlit("cron-utils");
        reveal_strlit("sql2o");
        reveal_strlit("RxJava");
        reveal_strlit("jsoup");
        assert("OpenOLAT"@.len() == 8);
        assert("spark"@.len() == 5);
        assert("DSpace"@.len() == 6);
        assert("xstream"@.len() == 7);
        assert("workflow-cps-plugin"@.len() == 19);
        assert("tika"@.len() == 4);
        assert("xwiki-platform"@.len() == 14);
        assert("jenkins"@.len() == 7);
        assert("keycloak"@.len() == 8);
        assert("onedev"@.len() == 6);
        assert("activemq"@.len() == 8);
        assert("cron-utils"@.len() == 10);
        assert("sql2o"@.len() == 5);
        assert("RxJava"@.len() == 6);
        assert("jsoup"@.len() == 5);
        assert("jsoup"@[0] == 'j' && "spark"@[0] == 's');
        assert("jsoup"@[0] == 'j' && "sql2o"@[0] == 's');
    }
    assert(spec_commit_for_repo("linux"@) == Some("6093a688a07da07808f0122f9aa2a3eed250d853"@)) by {
        reveal_strlit("OpenOLAT");
        reveal_strlit("spark");
        reveal_strlit("DSpace");
        reveal_strlit("xstream");
        reveal_strlit("workflow-cps-plugin");
        reveal_strlit("tika");
        reveal_strlit("xwiki-platform");
        reveal_strlit("jenkins");
        reveal_strlit("keycloak");
        reveal_strlit("onedev");
        reveal_strlit("activemq");
        reveal_strlit("cron-utils");
        reveal_strlit("sql2o");
        reveal_strlit("RxJava");
        reveal_strlit("jsoup");
        reveal_strlit("linux");
        assert("OpenOLAT"@.len() == 8);
        assert("spark"@.len() == 5);
        assert("DSpace"@.len() == 6);
        assert("xstream"@.len() == 7);
        assert("workflow-cps-plugin"@.len() == 19);
        assert("tika"@.len() == 4);
        assert("xwiki-platform"@.len() == 14);
        assert("jenkins"@.len() == 7);
        assert("keycloak"@.len() == 8);
        assert("onedev"@.len() == 6);
        assert("activemq"@.len() == 8);
        assert("cron-utils"@.len() == 10);
        assert("sql2o"@.len() == 5);
        assert("RxJava"@.len() == 6);
        assert("jsoup"@.len() == 5);
        assert("linux"@.len() == 5);
        assert("linux"@[0] == 'l' && "spark"@[0] == 's');
        assert("linux"@[0] == 'l' && "sql2o"@[0] == 's');
        assert("linux"@[0] == 'l' && "jsoup"@[0] == 'j');
    }
    assert(spec_commit_for_repo("ImageMagick"@) == Some("3bf1076d748a5ec40073685ce71ca9222cf0b00c"@)) by {
        reveal_strlit("OpenOLAT");
        reveal_strlit("spark");
        reveal_strlit("DSpace");
        reveal_strlit("xstream");
        reveal_strlit("workflow-cps-plugin");
        reveal_strlit("tika");
        reveal_strlit("xwiki-platform");
        reveal_strlit("jenkins");
        reveal_strlit("keycloak");
        reveal_strlit("onedev");
        reveal_strlit("activemq");
        reveal_strlit("cron-utils");
        reveal_strlit("sql2o");
        reveal_strlit("RxJava");
        reveal_strlit("jsoup");
        reveal_strlit("linux");
        reveal_strlit("ImageMagick");
        assert("OpenOLAT"@.len() == 8);
        assert("spark"@.len() == 5);
        assert("DSpace"@.len() == 6);
        assert("xstream"@.len() == 7);
        assert("workflow-cps-plugin"@.len() == 19);
        assert("tika"@.len() == 4);
        assert("xwiki-platform"@.len() == 14);
        assert("jenkins"@.len() == 7);
        assert("keycloak"@.len() == 8);
        assert("onedev"@.len() == 6);
        assert("activemq"@.len() == 8);
        assert("cron-utils"@.len() == 10);
        assert("sql2o"@.len() == 5);
        assert("RxJava"@.len() == 6);
        assert("jsoup"@.len() == 5);
        assert("linux"@.len() == 5);
        assert("ImageMagick"@.len() == 11);
    }
    assert(spec_commit_for_repo("vim"@) == Some("8feaa94e774cd92039f5e35901a1340ac132163f"@)) by {
        reveal_strlit("OpenOLAT");
        reveal_strlit("spark");
        reveal_strlit("DSpace");
        reveal_strlit("xstream");
        reveal_strlit("workflow-cps-plugin");
        reveal_strlit("tika");
        reveal_strlit("xwiki-platform");
        reveal_strlit("jenkins");
        reveal_strlit("keycloak");
        reveal_strlit("onedev");
        reveal_strlit("activemq");
        reveal_strlit("cron-utils");
        reveal_strlit("sql2o");
        reveal_strlit("RxJava");
        reveal_strlit("jsoup");
        reveal_strlit("linux");
        reveal_strlit("ImageMagick");
        reveal_strlit("vim");
        assert("OpenOLAT"@.len() == 8);
        assert("spark"@.len() == 5);
        assert("DSpace"@.len() == 6);
        assert("xstream"@.len() == 7);
        assert("workflow-cps-plugin"@.len() == 19);
        assert("tika"@.len() == 4);
        assert("xwiki-platform"@.len() == 14);
        assert("jenkins"@.len() == 7);
        assert("keycloak"@.len() == 8);
        assert("onedev"@.len() == 6);
        assert("activemq"@.len() == 8);
        assert("cron-utils"@.len() == 10);
        assert("sql2o"@.len() == 5);
        assert("RxJava"@.len() == 6);
        assert("jsoup"@.len() == 5);
        assert("linux"@.len() == 5);
        assert("ImageMagick"@.len() == 11);
        assert("vim"@.len() == 3);
    }
    assert(spec_commit_for_repo("gpac"@) == Some("c6a72c35aadadd9755d177c5ffc51b3e2b5f9268"@)) by {
        reveal_strlit("OpenOLAT");
        reveal_strlit("spark");
        reveal_strlit("DSpace");
        reveal_strlit("xstream");
        reveal_strlit("workflow-cps-plugin");
        reveal_strlit("tika");
        reveal_strlit("xwiki-platform");
        reveal_strlit("jenkins");
        reveal_strlit("keycloak");
        reveal_strlit("onedev");
        reveal_strlit("activemq");
        reveal_strlit("cron-utils");
        reveal_strlit("sql2o");
        reveal_strlit("RxJava");
        reveal_strlit("jsoup");
        reveal_strlit("linux");
        reveal_strlit("ImageMagick");
        reveal_strlit("vim");
        reveal_strlit("gpac");
        assert("OpenOLAT"@.len() == 8);
        assert("spark"@.len() == 5);
        assert("DSpace"@.len() == 6);
        assert("xstream"@.len() == 7);
        assert("workflow-cps-plugin"@.len() == 19);
        assert("tika"@.len() == 4);
        assert("xwiki-platform"@.len() == 14);
        assert("jenkins"@.len() == 7);
        assert("keycloak"@.len() == 8);
        assert("onedev"@.len() == 6);
        assert("activemq"@.len() == 8);
        assert("cron-utils"@.len() == 10);
        assert("sql2o"@.len() == 5);
        assert("RxJava"@.len() == 6);
        assert("jsoup"@.len() == 5);
        assert("linux"@.len() == 5);
        assert("ImageMagick"@.len() == 11);
        assert("vim"@.len() == 3);
        assert("gpac"@.len() == 4);
        assert("gpac"@[0] == 'g' && "tika"@[0] == 't');
    }
    assert(spec_commit_for_repo("bitlbee"@) == Some("8af06ca5362445ff6379aca028b79c607ed77f90"@)) by {
        reveal_strlit("OpenOLAT");
        reveal_strlit("spark");
        reveal_strlit("DSpace");
        reveal_strlit("xstream");
        reveal_strlit("workflow-cps-plugin");
        reveal_strlit("tika");
        reveal_strlit("xwiki-platform");
        reveal_strlit("jenkins");
        reveal_strlit("keycloak");
        reveal_strlit("onedev");
        reveal_strlit("activemq");
        reveal_strlit("cron-utils");
        reveal_strlit("sql2o");
        reveal_strlit("RxJava");
        reveal_strlit("jsoup");
        reveal_strlit("linux");
        reveal_strlit("ImageMagick");
        reveal_strlit("vim");
        reveal_strlit("gpac");
        reveal_strlit("bitlbee");
        assert("OpenOLAT"@.len() == 8);
        assert("spark"@.len() == 5);
        assert("DSpace"@.len() == 6);
        assert("xstream"@.len() == 7);
        assert("workflow-cps-plugin"@.len() == 19);
        assert("tika"@.len() == 4);
        assert("xwiki-platform"@.len() == 14);
        assert("jenkins"@.len() == 7);
        assert("keycloak"@.len() == 8);
        assert("onedev"@.len() == 6);
        assert("activemq"@.len() == 8);
        assert("cron-utils"@.len() == 10);
        assert("sql2o"@.len() == 5);
        assert("RxJava"@.len() == 6);
        assert("jsoup"@.len() == 5);
        assert("linux"@.len() == 5);
        assert("ImageMagick"@.len() == 11);
        assert("vim"@.len() == 3);
        assert("gpac"@.len() == 4);
        assert("bitlbee"@.len() == 7);
        assert("bitlbee"@[0] == 'b' && "xstream"@[0] == 'x');
        assert("bitlbee"@[0] == 'b' && "jenkins"@[0] == 'j');
    }
}

/// The revision at which the benchmark project checked out under directory `name`
/// is validated; none for a directory name of no benchmark project.
pub fn commit_for_repo(name: &str) -> (res: Option<String>)
    ensures
        res is Some <==> spec_commit_for_repo(name@) is Some,
        res matches Some(c) ==> c@ == spec_commit_for_repo(name@)->0,
{
    let n = String::from_str(name);
    let commit = if n == String::from_str("OpenOLAT") {
        "df53b85db5c27935e7467b9d39eaac7aebf50d4a"
    } else if n == String::from_str("spark") {
        "1973e402f5d4c1442ad34a1d38ed0758079f7773"
    } else if n == String::from_str("DSpace") {
        "3b248012147da7cac7ac0fcd0b6b9ee0b07b5088"
    } else if n == String::from_str("xstream") {
        "a22d3af9e3938fcf33bff620fd08669993e203cf"
    } else if n == String::from_str("workflow-cps-plugin") {
        "e4b9517bd855657c900bd1b31cde09748c7a19a7"
    } else if n == String::from_str("tika") {
        "2b38ed18fa6df22a425cd96f2431b3a574044533"
    } else if n == String::from_str("xwiki-platform") {
        "fc734981c142b35c0ce97d0af7d29c904794ba46"
    } else if n == String::from_str("jenkins") {
        "69d5a542391a0dc5c1b2ed609447bc863e7e892d"
    } else if n == String::from_str("keycloak") {
        "4f55b9b6bd6dadfdd04cfd09eb532dfdd26d5607"
    } else if n == String::from_str("onedev") {
        "b8a4d7cdc212a488fd732a675f3d6f7fc755f5a3"
    } else if n == String::from_str("activemq") {
        "56ea235e6e481f7408f09101dec7ae77edb40ed1"
    } else if n == String::from_str("cron-utils") {
        "bac6e866caf5f53d695a9513fc1b938b8064eaeb"
    } else if n == String::from_str("sql2o") {
        "744b85b32bcea972c8d570483e1051cd0a25f0ba"
    } else if n == String::from_str("RxJava") {
        "f07765edac25ccc110802add8a879d77208f09b9"
    } else if n == String::from_str("jsoup") {
        "acafbcf3cb71ea0a04188c8f6257e3d395fa7c36"
    } else if n == String::from_str("linux") {
        "6093a688a07da07808f0122f9aa2a3eed250d853"
    } else if n == String::from_str("ImageMagick") {
        "3bf1076d748a5ec40073685ce71ca9222cf0b00c"
    } else if n == String::from_str("vim") {
        "8feaa94e774cd92039f5e35901a1340ac132163f"
    } else if n == String::from_str("gpac") {
        "c6a72c35aadadd9755d177c5ffc51b3e2b5f9268"
    } else if n == String::from_str("bitlbee") {
        "8af06ca5362445ff6379aca028b79c607ed77f90"
    } else {
        return None;
    };
    Some(String::from_str(commit))
}

/// The number of findings sampled where `wanted` are asked for: at most
/// [`MAX_SAMPLE`].
pub fn capped_sample_size(wanted: usize) -> (res: usize)
    ensures
        res == if wanted < MAX_SAMPLE { wanted } else { MAX_SAMPLE },
{
    if wanted < MAX_SAMPLE { wanted } else { MAX_SAMPLE }
}

/// No run samples more than 300 findings, however many are asked for, and one that
/// asks for fewer gets as many as it asks for.
pub proof fn law_sample_cap(wanted: usize)
    ensures
        MAX_SAMPLE == 300,
        (if wanted < MAX_SAMPLE { wanted } else { MAX_SAMPLE }) <= 300,
        wanted <= 300 ==> (if wanted < MAX_SAMPLE { wanted } else { MAX_SAMPLE }) == wanted,
{
}

/// The text in which a finding is handed on: its lines, one after the other.
pub fn report_text(report: &Vec<String>) -> (res: String)
    ensures
        res@ == seq_join(report.deep_view(), "\n"@),
{
    join(report, "\n")
}

/// Draws `amount` of the indices `0..n` (all of them where `amount` exceeds `n`) at
/// random, with `rand::seq::SliceRandom::choose_multiple` and `rand::thread_rng`.
/// The contract states what holds of every draw, as the crate documents it: as many
/// indices as asked for, at most `n`, each below `n`, none twice. Which indices are
/// drawn, and in what order, is left open.
#[verifier::external_body]
fn choose_indexes(n: usize, amount: usize) -> (res: Vec<usize>)
    ensures
        res.len() == if amount < n { amount } else { n },
        forall|i: int| 0 <= i < res.len() ==> res@[i] < n,
        forall|i: int, j: int| 0 <= i < j < res.len() ==> res@[i] != res@[j],
{
    let indexes: Vec<usize> = (0..n).collect();
    indexes.choose_multiple(&mut rand::thread_rng(), amount).cloned().collect()
}

/// The findings at the indices `sample`, each with its index and the text in which it
/// is handed on.
pub fn sampled_reports(reports: &Vec<Vec<String>>, sample: &Vec<usize>) -> (res: Vec<(usize, String)>)
    requires
        forall|i: int| 0 <= i < sample.len() ==> sample@[i] < reports.len(),
    ensures
        res.len() == sample.len(),
        forall|i: int|
            0 <= i < sample.len() ==> (#[trigger] res@[i]).0 == sample@[i] && res@[i].1@ == seq_join(
                reports.deep_view()[sample@[i] as int],
                "\n"@,
            ),
{
    let mut res: Vec<(usize, String)> = Vec::new();
    for i in 0..sample.len()
        invariant
            forall|k: int| 0 <= k < sample.len() ==> sample@[k] < reports.len(),
            res.len() == i,
            forall|k: int|
                0 <= k < i ==> (#[trigger] res@[k]).0 == sample@[k] && res@[k].1@ == seq_join(
                    reports.deep_view()[sample@[k] as int],
                    "\n"@,
                ),
    {
        let idx = sample[i];
        let text = report_text(&reports[idx]);
        assert(reports.deep_view()[idx as int] == reports@[idx as int].deep_view());
        res.push((idx, text));
    }
    res
}

/// Samples the findings to validate where `wanted` are asked for: at most
/// [`MAX_SAMPLE`] and at most all of them, drawn at random, none twice, each with its
/// index and its text.
pub fn sample_reports(reports: &Vec<Vec<String>>, wanted: usize) -> (res: Vec<(usize, String)>)
    ensures
        res.len() == if reports.len() < (if wanted < MAX_SAMPLE { wanted } else { MAX_SAMPLE }) {
            reports.len() as int
        } else {
            (if wanted < MAX_SAMPLE { wanted } else { MAX_SAMPLE }) as int
        },
        forall|i: int|
            0 <= i < res.len() ==> (#[trigger] res@[i]).0 < reports.len() && res@[i].1@ == seq_join(
                reports.deep_view()[res@[i].0 as int],
                "\n"@,
            ),
        forall|i: int, j: int| 0 <= i < j < res.len() ==> (#[trigger] res@[i]).0 != (#[trigger] res@[j]).0,
{
    let amount = capped_sample_size(wanted);
    let sample = choose_indexes(reports.len(), amount);
    sampled_reports(reports, &sample)
}

/// The name of the file that receives the judgments on the report file whose name
/// without extension is `stem`.
pub fn output_file_name(stem: &str) -> (res: String)
    ensures
        res@ == "validated_v3_"@ + stem@ + ".json"@,
{
    let mut res = String::from_str("validated_v3_");
    res.append(stem);
    res.append(".json");
    res
}

} // verus!
