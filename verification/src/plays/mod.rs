pub mod init_astroport_pair;
pub mod init_dojoswap_pair;
pub mod utils;
